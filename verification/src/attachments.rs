use vstd::prelude::*;

verus! {

/// How many files one message may carry; the compose view warns once this
/// many are attached.
pub const MAX_FILES_PER_MESSAGE: usize = 8;

/// One component of a local path, as `std::path::Path::components` splits
/// it. A prefix (on Windows) holds its parsed form, in a text where equal
/// prefixes and only they give equal bytes. A normal component holds its
/// bytes as the platform encodes them, by which it is compared, and its
/// text as `OsStr::to_string_lossy` gives it, which is what is shown.
#[derive(Clone, Debug, PartialEq, Eq)]
pub enum PathComponent {
    Prefix(Vec<u8>),
    RootDir,
    CurDir,
    ParentDir,
    Normal { bytes: Vec<u8>, text: String },
}

/// The mathematical value of a `PathComponent`.
pub ghost enum PathComponentView {
    Prefix(Seq<u8>),
    RootDir,
    CurDir,
    ParentDir,
    Normal { bytes: Seq<u8>, text: Seq<char> },
}

impl View for PathComponent {
    type V = PathComponentView;

    open spec fn view(&self) -> PathComponentView {
        match self {
            PathComponent::Prefix(b) => PathComponentView::Prefix(b@),
            PathComponent::RootDir => PathComponentView::RootDir,
            PathComponent::CurDir => PathComponentView::CurDir,
            PathComponent::ParentDir => PathComponentView::ParentDir,
            PathComponent::Normal { bytes, text } => PathComponentView::Normal {
                bytes: bytes@,
                text: text@,
            },
        }
    }
}

/// A copy of a byte vector.
fn copy_bytes(bytes: &Vec<u8>) -> (copy: Vec<u8>)
    ensures
        copy@ == bytes@,
{
    let mut copy: Vec<u8> = Vec::new();
    for i in 0..bytes.len()
        invariant
            copy@ == bytes@.take(i as int),
    {
        copy.push(bytes[i]);
        assert(copy@ =~= bytes@.take(i + 1));
    }
    assert(bytes@.take(bytes.len() as int) =~= bytes@);
    copy
}

/// Whether two byte vectors hold the same bytes.
fn bytes_equal(a: &Vec<u8>, b: &Vec<u8>) -> (same: bool)
    ensures
        same == (a@ == b@),
{
    if a.len() != b.len() {
        return false;
    }
    for i in 0..a.len()
        invariant
            a@.len() == b@.len(),
            forall|j: int| 0 <= j < i ==> a@[j] == b@[j],
    {
        if a[i] != b[i] {
            return false;
        }
    }
    assert(a@ =~= b@);
    true
}

impl PathComponent {
    /// A copy of the component.
    pub fn duplicate(&self) -> (copy: PathComponent)
        ensures
            copy@ == self@,
    {
        match self {
            PathComponent::Prefix(b) => PathComponent::Prefix(copy_bytes(b)),
            PathComponent::RootDir => PathComponent::RootDir,
            PathComponent::CurDir => PathComponent::CurDir,
            PathComponent::ParentDir => PathComponent::ParentDir,
            PathComponent::Normal { bytes, text } => PathComponent::Normal {
                bytes: copy_bytes(bytes),
                text: text.clone(),
            },
        }
    }
}

/// The bytes by which a component is compared: a prefix's parsed form, a
/// normal component's encoded bytes (its shown text plays no part).
pub open spec fn component_key(c: PathComponentView) -> PathComponentView {
    match c {
        PathComponentView::Normal { bytes, .. } => PathComponentView::Normal { bytes, text: seq![] },
        _ => c,
    }
}

/// Whether two components are the same component, as `Path` compares them.
pub fn same_component(a: &PathComponent, b: &PathComponent) -> (same: bool)
    ensures
        same == (component_key(a@) == component_key(b@)),
{
    match (a, b) {
        (PathComponent::Prefix(x), PathComponent::Prefix(y)) => bytes_equal(x, y),
        (PathComponent::Normal { bytes: x, .. }, PathComponent::Normal { bytes: y, .. }) => bytes_equal(x, y),
        (PathComponent::RootDir, PathComponent::RootDir) => true,
        (PathComponent::CurDir, PathComponent::CurDir) => true,
        (PathComponent::ParentDir, PathComponent::ParentDir) => true,
        _ => false,
    }
}

/// The values of a sequence of components.
pub open spec fn component_views(s: Seq<PathComponent>) -> Seq<PathComponentView> {
    s.map_values(|c: PathComponent| c@)
}

/// The comparison keys of a sequence of components.
pub open spec fn component_keys(s: Seq<PathComponentView>) -> Seq<PathComponentView> {
    s.map_values(|c: PathComponentView| component_key(c))
}

/// Whether two paths, given by their components, are the same path: the
/// same components in the same order, which is how `Path` compares.
pub fn same_components(a: &Vec<PathComponent>, b: &Vec<PathComponent>) -> (same: bool)
    ensures
        same == (component_keys(component_views(a@)) == component_keys(component_views(b@))),
{
    if a.len() != b.len() {
        assert(component_keys(component_views(a@)).len() != component_keys(component_views(b@)).len());
        return false;
    }
    for i in 0..a.len()
        invariant
            a@.len() == b@.len(),
            forall|j: int| 0 <= j < i ==> component_key(a@[j]@) == component_key(b@[j]@),
    {
        if !same_component(&a[i], &b[i]) {
            assert(component_keys(component_views(a@))[i as int] != component_keys(component_views(b@))[i as int]);
            return false;
        }
    }
    assert(component_keys(component_views(a@)) =~= component_keys(component_views(b@)));
    true
}

/// A copy of a component list.
fn copy_components(c: &Vec<PathComponent>) -> (copy: Vec<PathComponent>)
    ensures
        component_views(copy@) == component_views(c@),
{
    let mut copy: Vec<PathComponent> = Vec::new();
    for i in 0..c.len()
        invariant
            copy@.len() == i,
            component_views(copy@) == component_views(c@.take(i as int)),
    {
        let ghost before = copy@;
        copy.push(c[i].duplicate());
        assert(c@.take(i + 1) =~= c@.take(i as int).push(c@[i as int]));
        assert(copy@ =~= before.push(copy@[i as int]));
        assert(component_views(copy@) =~= component_views(before).push(c@[i as int]@));
        assert(component_views(copy@) =~= component_views(c@.take(i + 1)));
    }
    assert(c@.take(c.len() as int) =~= c@);
    copy
}

/// Where an attached file lives: in the user's storage, by its path there;
/// or on the local disk, by its path as text (`path`, what is shown) and
/// the same path split into components (`components`, what tells two local
/// paths apart).
#[derive(Clone, Debug, PartialEq, Eq)]
pub enum Location {
    Constellation { path: String },
    Disk { path: String, components: Vec<PathComponent> },
}

/// The mathematical value of a `Location`.
pub ghost enum LocationView {
    Constellation(Seq<char>),
    Disk { path: Seq<char>, components: Seq<PathComponentView> },
}

impl View for Location {
    type V = LocationView;

    open spec fn view(&self) -> LocationView {
        match self {
            Location::Constellation { path } => LocationView::Constellation(path@),
            Location::Disk { path, components } => LocationView::Disk {
                path: path@,
                components: component_views(components@),
            },
        }
    }
}

impl Location {
    /// The path of the location as text, whatever its kind.
    pub open spec fn path_view(&self) -> Seq<char> {
        match self {
            Location::Constellation { path } => path@,
            Location::Disk { path, .. } => path@,
        }
    }

    /// A copy of the location.
    pub fn duplicate(&self) -> (copy: Location)
        ensures
            copy@ == self@,
    {
        match self {
            Location::Constellation { path } => Location::Constellation { path: path.clone() },
            Location::Disk { path, components } => Location::Disk {
                path: path.clone(),
                components: copy_components(components),
            },
        }
    }
}

/// Whether two locations name the same file: two storage locations with the
/// same path text, or two local locations with the same path components
/// (so `a/b`, `a//b` and `a/./b` are one local path).
pub open spec fn same_place(a: LocationView, b: LocationView) -> bool {
    match a {
        LocationView::Constellation(p) => match b {
            LocationView::Constellation(q) => p == q,
            LocationView::Disk { .. } => false,
        },
        LocationView::Disk { components: c, .. } => match b {
            LocationView::Constellation(_) => false,
            LocationView::Disk { components: d, .. } => component_keys(c) == component_keys(d),
        },
    }
}

/// Whether two locations name the same file.
pub fn same_location(a: &Location, b: &Location) -> (same: bool)
    ensures
        same == same_place(a@, b@),
{
    match (a, b) {
        (Location::Constellation { path: p }, Location::Constellation { path: q }) => *p == *q,
        (Location::Disk { components: c, .. }, Location::Disk { components: d, .. }) => same_components(c, d),
        (Location::Constellation { .. }, Location::Disk { .. }) => false,
        (Location::Disk { .. }, Location::Constellation { .. }) => false,
    }
}

/// The values of a sequence of locations.
pub open spec fn location_views(s: Seq<Location>) -> Seq<LocationView> {
    s.map_values(|l: Location| l@)
}

/// The attachments that remain once every one that names the same file as
/// `removed` is taken out, in their order.
pub open spec fn without_location(s: Seq<LocationView>, removed: LocationView) -> Seq<LocationView> {
    s.filter(|v: LocationView| !same_place(v, removed))
}

/// The attachments left when the user removes `removed` from `files`: every
/// attachment that is not the same location, in its order.
pub fn remove_attachment(files: &Vec<Location>, removed: &Location) -> (left: Vec<Location>)
    ensures
        location_views(left@) == without_location(location_views(files@), removed@),
{
    let ghost pred = |v: LocationView| !same_place(v, removed@);
    let mut left: Vec<Location> = Vec::new();
    let n = files.len();
    for i in 0..n
        invariant
            n == files@.len(),
            pred == (|v: LocationView| !same_place(v, removed@)),
            location_views(left@) == location_views(files@.take(i as int)).filter(pred),
    {
        let keep = !same_location(&files[i], removed);
        let ghost before = left@;
        if keep {
            left.push(files[i].duplicate());
        }
        proof {
            assert(location_views(files@.take(i + 1)) =~= location_views(files@.take(i as int)).push(
                files@[i as int]@,
            ));
            reveal(Seq::filter);
            assert(pred(files@[i as int]@) == keep);
            assert(location_views(files@.take(i + 1)).drop_last() == location_views(
                files@.take(i as int),
            ));
            if keep {
                assert(location_views(left@) =~= location_views(before).push(files@[i as int]@));
            } else {
                assert(location_views(left@) =~= location_views(before));
            }
        }
    }
    assert(files@.take(n as int) =~= files@);
    left
}

/// What pressing the button of an attachment's entry does. The entry's
/// button reports a path where it asks for a download, and reports none for
/// its remove button: then the list without that attachment goes to the
/// compose view; a download request leaves the list alone.
pub fn on_attachment_press(files: &Vec<Location>, location: &Location, download_path: Option<String>) -> (left: Option<Vec<Location>>)
    ensures
        match left {
            Some(left) => download_path is None && location_views(left@) == without_location(
                location_views(files@),
                location@,
            ),
            None => download_path is Some,
        },
{
    match download_path {
        Some(_) => None,
        None => Some(remove_attachment(files, location)),
    }
}

/// Removing a location leaves no attachment that names the same file.
pub proof fn lemma_removed_location_is_gone(s: Seq<LocationView>, removed: LocationView)
    ensures
        forall|i: int|
            0 <= i < without_location(s, removed).len() ==> !same_place(
                #[trigger] without_location(s, removed)[i],
                removed,
            ),
{
    broadcast use vstd::seq_lib::group_filter_ensures;

    assert forall|i: int| 0 <= i < without_location(s, removed).len() implies !same_place(
        #[trigger] without_location(s, removed)[i],
        removed,
    ) by {
        s.lemma_filter_pred(|v: LocationView| !same_place(v, removed), i);
    }
}

/// Removing a location keeps every attachment that names another file.
pub proof fn lemma_other_locations_stay(s: Seq<LocationView>, removed: LocationView, kept: LocationView)
    requires
        s.contains(kept),
        !same_place(kept, removed),
    ensures
        without_location(s, removed).contains(kept),
{
    broadcast use vstd::seq_lib::group_filter_ensures;

    let i = choose|i: int| 0 <= i < s.len() && s[i] == kept;
    s.lemma_filter_contains(|v: LocationView| !same_place(v, removed), i);
}

/// Removing the same location a second time changes nothing.
pub proof fn lemma_remove_twice(s: Seq<LocationView>, removed: LocationView)
    ensures
        without_location(without_location(s, removed), removed) == without_location(s, removed),
    decreases s.len(),
{
    reveal(Seq::filter);
    if s.len() > 0 {
        lemma_remove_twice(s.drop_last(), removed);
        let once = without_location(s, removed);
        if !same_place(s.last(), removed) {
            assert(once.drop_last() == without_location(s.drop_last(), removed));
        }
    }
}

/// Two local locations whose paths have the same components name the same
/// file, however their paths are written.
pub proof fn lemma_same_components_same_place(
    p: Seq<char>,
    q: Seq<char>,
    components: Seq<PathComponentView>,
)
    ensures
        same_place(
            LocationView::Disk { path: p, components },
            LocationView::Disk { path: q, components },
        ),
{
}

/// Which attachment strip the compose view shows.
#[derive(Clone, Copy, Debug, PartialEq, Eq)]
pub enum AttachmentsPanel {
    /// Nothing is attached: no strip.
    Hidden,
    /// The strip, with the too-many-files warning where `over_limit`.
    Shown { over_limit: bool },
}

/// The strip shown for the attached `files`: none when nothing is attached,
/// and a warning once `MAX_FILES_PER_MESSAGE` or more are.
pub fn attachments_panel(files: &Vec<Location>) -> (panel: AttachmentsPanel)
    ensures
        panel == (if files@.len() == 0 {
            AttachmentsPanel::Hidden
        } else {
            AttachmentsPanel::Shown { over_limit: files@.len() >= MAX_FILES_PER_MESSAGE }
        }),
{
    if files.len() == 0 {
        AttachmentsPanel::Hidden
    } else {
        AttachmentsPanel::Shown { over_limit: files.len() >= MAX_FILES_PER_MESSAGE }
    }
}

/// The first index whose name is `name`, if any.
pub open spec fn first_named(names: Seq<String>, name: Seq<char>, found: Option<usize>) -> bool {
    match found {
        Some(i) => {
            &&& i < names.len()
            &&& names[i as int]@ == name
            &&& forall|j: int| 0 <= j < i ==> names[j]@ != name
        },
        None => forall|j: int| 0 <= j < names.len() ==> names[j]@ != name,
    }
}

/// The index of the first stored file called `name`.
pub fn find_stored_file(names: &Vec<String>, name: &String) -> (found: Option<usize>)
    ensures
        first_named(names@, name@, found),
{
    let n = names.len();
    for i in 0..n
        invariant
            n == names@.len(),
            forall|j: int| 0 <= j < i ==> names@[j]@ != name@,
    {
        if names[i] == *name {
            return Some(i);
        }
    }
    None
}

/// What the attachment strip shows for one attachment.
#[derive(Clone, Debug, PartialEq, Eq)]
pub struct AttachmentEntry {
    /// The name shown under the file.
    pub filename: String,
    /// The path the entry stands for.
    pub filepath: String,
    /// For a file in storage, the index of the first stored file with that
    /// name, whose thumbnail the entry shows; `None` shows no thumbnail.
    pub stored_file: Option<usize>,
}

/// The entry for `location`, given the file name that its path has
/// (`filename`) and the names of the files in storage: a file in storage
/// takes the thumbnail of the first stored file of that name; a file on
/// disk takes none.
pub fn attachment_entry_named(location: &Location, filename: String, stored_names: &Vec<String>) -> (entry: AttachmentEntry)
    ensures
        entry.filename@ == filename@,
        entry.filepath@ == location.path_view(),
        match location {
            Location::Constellation { .. } => first_named(stored_names@, filename@, entry.stored_file),
            Location::Disk { .. } => entry.stored_file is None,
        },
{
    match location {
        Location::Constellation { path } => {
            let stored_file = find_stored_file(stored_names, &filename);
            AttachmentEntry { filename, filepath: path.clone(), stored_file }
        },
        Location::Disk { path, .. } => AttachmentEntry { filename, filepath: path.clone(), stored_file: None },
    }
}

/// Whether `part` stands, as it is, somewhere in `whole`.
pub open spec fn is_part_of(part: Seq<char>, whole: Seq<char>) -> bool {
    exists|a: int, b: int| 0 <= a <= b <= whole.len() && part == whole.subrange(a, b)
}

/// A name that every platform reads as one ordinary path component: not
/// empty, without `/`, `\` or `:`, and neither `.` nor `..`.
pub open spec fn plain_name(n: Seq<char>) -> bool {
    &&& n.len() > 0
    &&& !n.contains('/')
    &&& !n.contains('\\')
    &&& !n.contains(':')
    &&& n != "."@
    &&& n != ".."@
}

/// A path, written without backslashes and not starting with `//`, that
/// ends in `/` followed by the plain name `n`.
pub open spec fn ends_in_name(path: Seq<char>, n: Seq<char>) -> bool {
    &&& plain_name(n)
    &&& !path.contains('\\')
    &&& !(path.len() >= 2 && path[0] == '/' && path[1] == '/')
    &&& path.len() > n.len()
    &&& path[path.len() - n.len() - 1] == '/'
    &&& path.subrange(path.len() - n.len(), path.len() as int) == n
}

/// What follows the last `/` of a text, or the whole text where it has none.
pub open spec fn after_last_slash(s: Seq<char>) -> Seq<char>
    decreases s.len(),
{
    if s.len() == 0 {
        s
    } else if s.last() == '/' {
        seq![]
    } else {
        after_last_slash(s.drop_last()).push(s.last())
    }
}

/// The text after the last `/` is no longer than the text, and where it is
/// shorter a `/` stands just before it.
pub proof fn lemma_after_last_slash(s: Seq<char>)
    ensures
        after_last_slash(s).len() <= s.len(),
        after_last_slash(s).len() < s.len() ==> s[s.len() - after_last_slash(s).len() - 1] == '/',
    decreases s.len(),
{
    if s.len() > 0 && s.last() != '/' {
        lemma_after_last_slash(s.drop_last());
    }
}

/// The file name of a path written with `/` as its only separator: the last
/// `/`-separated part that is neither empty nor `.`, where that part is not
/// `..`; the empty text where there is no such part or it is `..`.
pub open spec fn slash_path_file_name(s: Seq<char>) -> Seq<char>
    decreases s.len(),
{
    if s.len() == 0 {
        seq![]
    } else {
        let seg = after_last_slash(s);
        proof {
            lemma_after_last_slash(s);
        }
        if seg.len() > 0 && seg != "."@ {
            if seg == ".."@ {
                seq![]
            } else {
                seg
            }
        } else if seg.len() == s.len() {
            seq![]
        } else {
            slash_path_file_name(s.subrange(0, s.len() - seg.len() - 1))
        }
    }
}

/// A path that every platform splits at `/` alone and reads without a
/// prefix: it has no backslash and no `:`, and does not start with `//`.
pub open spec fn slash_only_path(path: Seq<char>) -> bool {
    &&& !path.contains('\\')
    &&& !path.contains(':')
    &&& !(path.len() >= 2 && path[0] == '/' && path[1] == '/')
}

/// What holds of the file name that `Path::file_name` gives a path on every
/// platform: it stands in the path; it has no `/` where the path has no
/// backslash; a path that ends in `/` and a plain name has that name; and a
/// path that is split at `/` alone has the name `slash_path_file_name`
/// gives (so a plain name is its own file name).
pub open spec fn file_name_facts(path: Seq<char>, name: Seq<char>) -> bool {
    &&& is_part_of(name, path)
    &&& !path.contains('\\') ==> !name.contains('/')
    &&& forall|n: Seq<char>| #[trigger] ends_in_name(path, n) ==> name == n
    &&& slash_only_path(path) ==> name == slash_path_file_name(path)
}

/// Calls `std::path::Path::file_name` on the path and turns the result into
/// text, the empty text where it is `None`. How a path splits into
/// components depends on the platform (Windows also splits at backslashes
/// and reads drive and network prefixes), so the contract states what holds
/// on every platform, `file_name_facts`; on a path with a backslash, or with
/// a `:` or a leading `//` that does not end in `/` and a plain name, the
/// name is left open beyond standing in the path.
#[verifier::external_body]
fn file_name_of_path(path: &str) -> (name: String)
    ensures
        file_name_facts(path@, name@),
{
    std::path::Path::new(path).file_name().unwrap_or_default().to_string_lossy().to_string()
}

/// The file name of a local path, as text: the shown text of its last
/// component where that is an ordinary one, nothing otherwise (a path that
/// ends in `..`, a root or a prefix has no file name).
pub open spec fn last_component_name(c: Seq<PathComponentView>) -> Seq<char> {
    if c.len() == 0 {
        seq![]
    } else {
        match c.last() {
            PathComponentView::Normal { text, .. } => text,
            _ => seq![],
        }
    }
}

/// The file name of a local path, as text.
fn disk_file_name(components: &Vec<PathComponent>) -> (name: String)
    ensures
        name@ == last_component_name(component_views(components@)),
{
    let n = components.len();
    if n == 0 {
        return String::new();
    }
    match &components[n - 1] {
        PathComponent::Normal { text, .. } => text.clone(),
        _ => String::new(),
    }
}

/// The entry that the attachment strip shows for `location`, with the names
/// of the files in storage: its path; its file name, for a file in storage
/// as `Path::file_name` gives it (`file_name_facts`), for a file on disk the
/// text of its last component where that is an ordinary one; and, for a
/// file in storage only, the first stored file of that name.
pub open spec fn entry_for(location: Location, stored_names: Seq<String>, entry: AttachmentEntry) -> bool {
    &&& entry.filepath@ == location.path_view()
    &&& match location {
        Location::Constellation { path } => {
            &&& file_name_facts(path@, entry.filename@)
            &&& first_named(stored_names, entry.filename@, entry.stored_file)
        },
        Location::Disk { components, .. } => {
            &&& entry.filename@ == last_component_name(component_views(components@))
            &&& entry.stored_file is None
        },
    }
}

/// The entry that the attachment strip shows for `location`.
pub fn attachment_entry(location: &Location, stored_names: &Vec<String>) -> (entry: AttachmentEntry)
    ensures
        entry_for(*location, stored_names@, entry),
{
    let filename = match location {
        Location::Constellation { path } => file_name_of_path(path.as_str()),
        Location::Disk { components, .. } => disk_file_name(components),
    };
    attachment_entry_named(location, filename, stored_names)
}

/// The entries of the attachment strip: one per attached file, in order,
/// duplicates kept.
pub fn attachment_entries(files: &Vec<Location>, stored_names: &Vec<String>) -> (entries: Vec<AttachmentEntry>)
    ensures
        entries@.len() == files@.len(),
        forall|i: int| 0 <= i < files@.len() ==> entry_for(files@[i], stored_names@, #[trigger] entries@[i]),
{
    let mut entries: Vec<AttachmentEntry> = Vec::new();
    for i in 0..files.len()
        invariant
            entries@.len() == i,
            forall|j: int| 0 <= j < i ==> entry_for(files@[j], stored_names@, #[trigger] entries@[j]),
    {
        entries.push(attachment_entry(&files[i], stored_names));
    }
    entries
}

/// Whether two components are the same component: both normal with the
/// same bytes (whatever their shown text), or both the same other component.
pub open spec fn components_agree(x: PathComponentView, y: PathComponentView) -> bool {
    match x {
        PathComponentView::Normal { bytes: b, .. } => match y {
            PathComponentView::Normal { bytes: c, .. } => b == c,
            _ => false,
        },
        _ => y == x,
    }
}

/// Two storage locations name the same file exactly when their path texts
/// are equal.
pub proof fn lemma_storage_same_place(p: Seq<char>, q: Seq<char>)
    ensures
        same_place(LocationView::Constellation(p), LocationView::Constellation(q)) <==> p == q,
{
}

/// A storage location and a local one never name the same file.
pub proof fn lemma_storage_never_local(p: Seq<char>, path: Seq<char>, c: Seq<PathComponentView>)
    ensures
        !same_place(LocationView::Constellation(p), LocationView::Disk { path, components: c }),
        !same_place(LocationView::Disk { path, components: c }, LocationView::Constellation(p)),
{
}

/// Two local locations name the same file exactly when they have as many
/// components and these agree one by one, whatever their path texts.
pub proof fn lemma_local_same_place(
    p: Seq<char>,
    c: Seq<PathComponentView>,
    q: Seq<char>,
    d: Seq<PathComponentView>,
)
    ensures
        same_place(LocationView::Disk { path: p, components: c }, LocationView::Disk { path: q, components: d })
            <==> (c.len() == d.len() && forall|i: int| 0 <= i < c.len() ==> #[trigger] components_agree(c[i], d[i])),
{
    let kc = component_keys(c);
    let kd = component_keys(d);
    assert(kc.len() == c.len() && kd.len() == d.len());
    if kc == kd {
        assert forall|i: int| 0 <= i < c.len() implies #[trigger] components_agree(c[i], d[i]) by {
            assert(kc[i] == component_key(c[i]));
            assert(kd[i] == component_key(d[i]));
            assert(kc[i] == kd[i]);
            match c[i] {
                PathComponentView::Normal { .. } => {
                    match d[i] {
                        PathComponentView::Normal { .. } => {},
                        _ => {},
                    }
                },
                _ => {
                    match d[i] {
                        PathComponentView::Normal { .. } => {},
                        _ => {},
                    }
                },
            }
        }
    }
    if c.len() == d.len() && forall|i: int| 0 <= i < c.len() ==> #[trigger] components_agree(c[i], d[i]) {
        assert forall|i: int| 0 <= i < kc.len() implies kc[i] == kd[i] by {
            assert(components_agree(c[i], d[i]));
            assert(kc[i] == component_key(c[i]));
            assert(kd[i] == component_key(d[i]));
        }
        assert(kc =~= kd);
    }
}

/// Removing a storage attachment keeps every storage attachment whose path
/// text differs from it.
pub proof fn lemma_removing_storage_keeps_other_paths(s: Seq<LocationView>, p: Seq<char>, q: Seq<char>)
    requires
        s.contains(LocationView::Constellation(q)),
        p != q,
    ensures
        without_location(s, LocationView::Constellation(p)).contains(LocationView::Constellation(q)),
{
    lemma_storage_same_place(q, p);
    lemma_other_locations_stay(s, LocationView::Constellation(p), LocationView::Constellation(q));
}

} // verus!
