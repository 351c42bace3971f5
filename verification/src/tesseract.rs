use vstd::prelude::*;

verus! {

/// The commands that the keystore task answers, without their reply
/// channels.
#[derive(Clone, Copy, PartialEq, Eq, Structural, Debug)]
pub enum TesseractCmdKind {
    AccountExists,
    GetMnemonic,
    DeleteMnemonic,
    CheckMnemonicExist,
}

/// What the keystore is asked to do for a command, and under which key.
#[derive(Clone, Debug, PartialEq, Eq)]
pub enum KeystoreRequest {
    /// Nothing is asked, and no reply is sent.
    Nothing,
    /// Read the value under the key and send back the result.
    Retrieve(String),
    /// Delete the value under the key and send back the result.
    Delete(String),
    /// Ask whether the key holds a value and send back `Ok` of the answer.
    Exist(String),
}

/// The key under which the account's recovery phrase is kept.
pub fn mnemonic_key() -> (key: String)
    ensures
        key@ == "mnemonic"@,
{
    String::from_str("mnemonic")
}

/// What the keystore is asked for each command: the recovery phrase is
/// read, deleted or looked for under its key; an account check asks
/// nothing.
pub fn tesseract_request(cmd: TesseractCmdKind) -> (request: KeystoreRequest)
    ensures
        match cmd {
            TesseractCmdKind::AccountExists => request is Nothing,
            TesseractCmdKind::GetMnemonic => request matches KeystoreRequest::Retrieve(k) && k@
                == "mnemonic"@,
            TesseractCmdKind::DeleteMnemonic => request matches KeystoreRequest::Delete(k) && k@
                == "mnemonic"@,
            TesseractCmdKind::CheckMnemonicExist => request matches KeystoreRequest::Exist(k) && k@
                == "mnemonic"@,
        },
{
    match cmd {
        TesseractCmdKind::AccountExists => KeystoreRequest::Nothing,
        TesseractCmdKind::GetMnemonic => KeystoreRequest::Retrieve(mnemonic_key()),
        TesseractCmdKind::DeleteMnemonic => KeystoreRequest::Delete(mnemonic_key()),
        TesseractCmdKind::CheckMnemonicExist => KeystoreRequest::Exist(mnemonic_key()),
    }
}

impl TesseractCmdKind {
    /// The command's name, as it is shown in logs.
    pub fn name(&self) -> (name: String)
        ensures
            name@ == match *self {
                TesseractCmdKind::AccountExists => "AccountExists"@,
                TesseractCmdKind::GetMnemonic => "GetMnemonic"@,
                TesseractCmdKind::DeleteMnemonic => "DeleteMnemonic"@,
                TesseractCmdKind::CheckMnemonicExist => "CheckMnemonicExist"@,
            },
    {
        match self {
            TesseractCmdKind::AccountExists => String::from_str("AccountExists"),
            TesseractCmdKind::GetMnemonic => String::from_str("GetMnemonic"),
            TesseractCmdKind::DeleteMnemonic => String::from_str("DeleteMnemonic"),
            TesseractCmdKind::CheckMnemonicExist => String::from_str("CheckMnemonicExist"),
        }
    }
}

} // verus!
