use uplink::tesseract::{mnemonic_key, tesseract_request, KeystoreRequest, TesseractCmdKind};

#[test]
fn requests_use_mnemonic_key() {
    assert_eq!(mnemonic_key(), "mnemonic");
    assert_eq!(tesseract_request(TesseractCmdKind::AccountExists), KeystoreRequest::Nothing);
    assert_eq!(tesseract_request(TesseractCmdKind::GetMnemonic), KeystoreRequest::Retrieve("mnemonic".to_string()));
    assert_eq!(tesseract_request(TesseractCmdKind::DeleteMnemonic), KeystoreRequest::Delete("mnemonic".to_string()));
    assert_eq!(tesseract_request(TesseractCmdKind::CheckMnemonicExist), KeystoreRequest::Exist("mnemonic".to_string()));
}

#[test]
fn command_names() {
    assert_eq!(TesseractCmdKind::AccountExists.name(), "AccountExists");
    assert_eq!(TesseractCmdKind::GetMnemonic.name(), "GetMnemonic");
    assert_eq!(TesseractCmdKind::DeleteMnemonic.name(), "DeleteMnemonic");
    assert_eq!(TesseractCmdKind::CheckMnemonicExist.name(), "CheckMnemonicExist");
}
