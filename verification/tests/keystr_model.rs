use keystr::error::Error;
use keystr::keystr_model::{Action, Command, Confirmation, KeystrModel, Modal};
use keystr::status_messages::StatusLine;

/// Stands for the key store: carries out what the model asks of it.
struct OwnKeys {
    set: bool,
}

impl OwnKeys {
    fn keys_is_set(&self) -> bool {
        self.set
    }
}

/// The model with a key store beside it.
struct Model {
    inner: KeystrModel,
    own_keys: OwnKeys,
    done: Vec<Command>,
}

impl Model {
    fn new() -> Self {
        Model { inner: KeystrModel::new(), own_keys: OwnKeys { set: false }, done: Vec::new() }
    }

    fn action(&mut self, action: Action) {
        for command in self.inner.action(action, self.own_keys.keys_is_set()) {
            match command {
                Command::KeysGenerate => self.own_keys.set = true,
                Command::KeysClear => self.own_keys.set = false,
                Command::KeysLoad => self.own_keys.set = true,
                _ => {}
            }
            self.done.push(command);
        }
    }

    fn modal(&self) -> Option<Modal> {
        self.inner.modal()
    }

    fn last_status(&self) -> Option<StatusLine> {
        self.inner.status.last().cloned()
    }
}

fn line(text: &str) -> Option<StatusLine> {
    Some(StatusLine { text: text.to_string(), is_error: false })
}

fn error_line(text: &str) -> Option<StatusLine> {
    Some(StatusLine { text: text.to_string(), is_error: true })
}

#[test]
fn keystr_model_test_clear_generate_confirmation() {
    let mut m = Model::new();
    assert_eq!(m.own_keys.keys_is_set(), false);
    assert!(m.modal().is_none());

    // generate
    m.action(Action::KeysGenerate);
    assert_eq!(m.own_keys.keys_is_set(), true);
    assert!(m.modal().is_none());

    // clear requires confirmation
    m.action(Action::KeysClear);
    assert_eq!(m.own_keys.keys_is_set(), true);
    assert!(m.modal().is_some());

    // confirmation No does not change it
    m.action(Action::ConfirmationNo);
    assert_eq!(m.own_keys.keys_is_set(), true);
    assert!(m.modal().is_none());

    // clear requires confirmation
    m.action(Action::KeysClear);
    assert_eq!(m.own_keys.keys_is_set(), true);
    assert!(m.modal().is_some());

    // confirmation Yes performs clean
    m.action(Action::ConfirmationYes);
    assert_eq!(m.own_keys.keys_is_set(), false);
    assert!(m.modal().is_none());

    // clear works now
    m.action(Action::KeysClear);
    assert_eq!(m.own_keys.keys_is_set(), false);
    assert!(m.modal().is_none());
}

#[test]
fn new_model_is_blank() {
    let model = KeystrModel::new();
    assert_eq!(model.modal(), None);
    assert_eq!(model.status.count(), 0);
    assert!(model.signer.connection().is_none());
    assert_eq!(model.signer.connect_uri_input, "");
}

#[test]
fn init_loads_keys_where_they_may_be_kept() {
    let (model, commands) = KeystrModel::init(true);
    assert_eq!(commands, vec![Command::KeysLoad]);
    assert_eq!(model.status.last().cloned(), line("Keystr started"));
    assert_eq!(model.status.count(), 1);
    assert_eq!(model.modal(), None);

    let (model, commands) = KeystrModel::init(false);
    assert_eq!(commands, vec![]);
    assert_eq!(model.status.last().cloned(), line("Keystr started"));
    assert_eq!(model.modal(), None);
}

#[test]
fn generate_over_set_keys_asks_first_and_goes_ahead_on_yes() {
    let mut m = Model::new();
    m.action(Action::KeysGenerate);
    assert_eq!(m.done, vec![Command::KeysGenerate]);
    assert_eq!(m.last_status(), line("New keypair generated"));

    m.action(Action::KeysGenerate);
    assert_eq!(
        m.modal(),
        Some(Modal::Confirmation(Confirmation::KeysClearBeforeAction(Some(Action::KeysGenerate))))
    );
    assert_eq!(m.done, vec![Command::KeysGenerate]);

    m.action(Action::ConfirmationYes);
    assert_eq!(m.modal(), None);
    assert_eq!(m.done, vec![Command::KeysGenerate, Command::KeysClear, Command::KeysGenerate]);
    assert_eq!(m.last_status(), line("New keypair generated"));
    assert_eq!(m.inner.status.count(), 3);
    assert_eq!(m.own_keys.keys_is_set(), true);
}

#[test]
fn load_over_set_keys_asks_first_and_goes_ahead_on_yes() {
    let mut m = Model::new();
    m.action(Action::KeysLoad);
    assert_eq!(m.done, vec![Command::KeysLoad]);
    assert_eq!(m.modal(), None);

    m.action(Action::KeysLoad);
    assert_eq!(
        m.modal(),
        Some(Modal::Confirmation(Confirmation::KeysClearBeforeAction(Some(Action::KeysLoad))))
    );
    m.action(Action::ConfirmationYes);
    assert_eq!(m.modal(), None);
    assert_eq!(m.done, vec![Command::KeysLoad, Command::KeysClear, Command::KeysLoad]);
    assert_eq!(m.last_status(), line("Keys cleared"));
}

#[test]
fn clear_asks_with_no_action_to_follow() {
    let mut m = Model::new();
    m.action(Action::KeysGenerate);
    m.action(Action::KeysClear);
    assert_eq!(
        m.modal(),
        Some(Modal::Confirmation(Confirmation::KeysClearBeforeAction(None)))
    );
    m.action(Action::ConfirmationYes);
    assert_eq!(m.done, vec![Command::KeysGenerate, Command::KeysClear]);
    assert_eq!(m.last_status(), line("Keys cleared"));
}

#[test]
fn clear_without_confirmation_clears_at_once() {
    let mut m = Model::new();
    m.action(Action::KeysGenerate);
    m.action(Action::KeysClearNoConfirm);
    assert_eq!(m.own_keys.keys_is_set(), false);
    assert_eq!(m.modal(), None);
    assert_eq!(m.last_status(), line("Keys cleared"));
}

#[test]
fn yes_and_no_without_a_dialog_do_nothing() {
    let mut m = Model::new();
    m.action(Action::ConfirmationYes);
    m.action(Action::ConfirmationNo);
    assert_eq!(m.done, vec![]);
    assert_eq!(m.modal(), None);
    assert_eq!(m.inner.status.count(), 0);
}

#[test]
fn other_actions_are_handed_on() {
    let pairs = vec![
        (Action::DelegateDeeGenerate, Command::DelegateDeeGenerate),
        (Action::DelegateSign, Command::DelegateSign),
        (Action::KeysImportPubkey, Command::KeysImportPubkey),
        (Action::KeysImportSecretkey, Command::KeysImportSecretkey),
        (Action::KeysSave, Command::KeysSave),
        (Action::KeysUnlock, Command::KeysUnlock),
        (Action::SignerConnect, Command::SignerConnect),
        (Action::SignerDisconnect, Command::SignerDisconnect),
        (Action::SignerPendingIgnoreFirst, Command::SignerPendingIgnoreFirst),
        (Action::SignerPendingProcessFirst, Command::SignerPendingProcessFirst),
    ];
    for keys_is_set in [false, true] {
        for (action, command) in pairs.iter() {
            let mut model = KeystrModel::new();
            assert_eq!(model.action(*action, keys_is_set), vec![*command]);
            assert_eq!(model.modal(), None);
            assert_eq!(model.status.count(), 0);
        }
    }
}

#[test]
fn other_actions_leave_an_open_dialog_open() {
    let mut model = KeystrModel::new();
    model.action(Action::KeysClear, true);
    let open = Some(Modal::Confirmation(Confirmation::KeysClearBeforeAction(None)));
    assert_eq!(model.modal(), open);
    assert_eq!(model.action(Action::KeysSave, true), vec![Command::KeysSave]);
    assert_eq!(model.modal(), open);
}

#[test]
fn outcomes_are_reported_to_the_status_sink() {
    let mut model = KeystrModel::new();
    model.delegate_sign_done(&Ok(()));
    assert_eq!(model.status.last().cloned(), line("Delegation created"));
    model.delegate_sign_done(&Err(Error::KeyNotSet));
    assert_eq!(model.status.last().cloned(), error_line("Key not set"));
    model.import_pubkey_done(&Ok(()));
    assert_eq!(model.status.last().cloned(), line("Public key imported"));
    model.import_pubkey_done(&Err(Error::KeyError("bad key".to_string())));
    assert_eq!(model.status.last().cloned(), error_line("bad key"));
    assert_eq!(model.status.count(), 4);
}

#[test]
fn signer_connect_needs_a_signing_capability() {
    let mut model = KeystrModel::new();
    model.signer.connect_uri_input = "nostrconnect://b889ff5b1513b641e2a139f661a661364979c5beee91842f8f0ef42ab558e9d4?relay=wss%3A%2F%2Frelay.damus.io%2F&metadata=%7B%22name%22%3A%22Example%22%7D".to_string();
    model.signer_connect(false);
    assert!(model.signer.connection().is_none());
    assert_eq!(model.status.last().cloned(), line("Key pair is not loaded or unlocked!"));
    model.signer_connect(true);
    assert!(model.signer.connection().is_some());
    assert_eq!(model.status.last().cloned(), line("Signer connecting..."));
}

#[test]
fn new_model_has_a_key_pair_with_its_secret_key() {
    let mut model = KeystrModel::new();
    model.signer.connect_uri_input = "nostrconnect://b889ff5b1513b641e2a139f661a661364979c5beee91842f8f0ef42ab558e9d4?relay=wss%3A%2F%2Frelay.damus.io%2F&metadata=%7B%22name%22%3A%22Example%22%7D".to_string();
    model.signer_connect(true);
    let session_keys = model.signer.connection().unwrap().app_id_keys.clone();
    assert!(session_keys.secret_key().is_ok());

    // Each model draws a key pair of its own.
    let mut other = KeystrModel::new();
    other.signer.connect_uri_input = model.signer.connect_uri_input.clone();
    other.signer_connect(true);
    assert_ne!(other.signer.connection().unwrap().app_id_keys, session_keys);
}

#[test]
fn init_model_has_a_key_pair_with_its_secret_key() {
    let (mut model, _) = KeystrModel::init(true);
    model.signer.connect_uri_input = "nostrconnect://b889ff5b1513b641e2a139f661a661364979c5beee91842f8f0ef42ab558e9d4?relay=wss%3A%2F%2Frelay.damus.io%2F&metadata=%7B%22name%22%3A%22Example%22%7D".to_string();
    assert!(model.signer_connect(true));
    assert!(model.signer.connection().unwrap().app_id_keys.secret_key().is_ok());
}

#[test]
fn signer_connect_tells_whether_a_session_was_opened() {
    let mut model = KeystrModel::new();
    model.signer.connect_uri_input = "bad".to_string();
    assert!(!model.signer_connect(false));
    assert!(!model.signer_connect(true));
    model.signer.connect_uri_input = "nostrconnect://b889ff5b1513b641e2a139f661a661364979c5beee91842f8f0ef42ab558e9d4?relay=wss%3A%2F%2Frelay.damus.io%2F&metadata=%7B%22name%22%3A%22Example%22%7D".to_string();
    assert!(!model.signer_connect(false));
    assert!(model.signer_connect(true));
    // The session is there already.
    assert!(!model.signer_connect(true));
    assert!(model.signer.connection().is_some());
}
