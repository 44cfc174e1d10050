//! The application model: what each action of the operator leads to.
//!
//! The model owns the connection manager, the status sink and the open
//! dialog. The key store, the delegator and the settings live outside it: the
//! model decides what they are to do and says so in a list of commands, which
//! the caller carries out in order. The one thing it asks of the key store
//! beforehand is whether keys are set.

use crate::error::{error_text, Error};
use crate::signer::{
    after_connect, connect_outcome, connect_report, reported, Signer, SignerView,
};
use crate::status_messages::{with_status, StatusLineView, StatusMessages};
use nostr::Keys;
use vstd::prelude::*;

verus! {

/// What the operator can do.
#[derive(Clone, Copy, Debug, PartialEq, Eq)]
pub enum Action {
    DelegateDeeGenerate,
    DelegateSign,
    KeysClearNoConfirm,
    KeysClear,
    KeysGenerate,
    KeysImportPubkey,
    KeysImportSecretkey,
    KeysLoad,
    KeysSave,
    KeysUnlock,
    ConfirmationYes,
    ConfirmationNo,
    SignerConnect,
    SignerDisconnect,
    SignerPendingIgnoreFirst,
    SignerPendingProcessFirst,
}

/// A question to the operator that waits for yes or no.
#[derive(Clone, Copy, Debug, PartialEq, Eq)]
pub enum Confirmation {
    /// The keys are about to be cleared; on yes they are, and then the action
    /// that asked for it goes ahead, if there was one.
    KeysClearBeforeAction(Option<Action>),
}

/// Modal dialogs
#[derive(Clone, Copy, Debug, PartialEq, Eq)]
pub enum Modal {
    Confirmation(Confirmation),
}

/// Work for what lives outside the model.
#[derive(Clone, Copy, Debug, PartialEq, Eq)]
pub enum Command {
    /// Have the delegator draw a new delegatee.
    DelegateDeeGenerate,
    /// Create a delegation with the own keys, and report with
    /// `delegate_sign_done`.
    DelegateSign,
    /// Clear the keys in the key store.
    KeysClear,
    /// Generate a new key pair in the key store.
    KeysGenerate,
    /// Import the public key that was typed in, report with
    /// `import_pubkey_done`, and empty the input.
    KeysImportPubkey,
    /// Import the secret key that was typed in.
    KeysImportSecretkey,
    /// Load the keys from where they are kept.
    KeysLoad,
    /// Save the keys.
    KeysSave,
    /// Unlock the secret key.
    KeysUnlock,
    /// Get the signing capability from the key store and go on with
    /// `signer_connect`.
    SignerConnect,
    /// Tear the transport down and call the manager's `disconnect_action`.
    SignerDisconnect,
    /// Call the manager's `pending_ignore_first_action`.
    SignerPendingIgnoreFirst,
    /// Call the manager's `pending_process_first_action` with the signing
    /// capability, and send what it gives.
    SignerPendingProcessFirst,
}

/// The model.
#[derive(Clone, Debug)]
pub struct KeystrModel {
    pub signer: Signer,
    pub status: StatusMessages,
    pub(crate) modal: Option<Modal>,
}

pub struct KeystrModelView {
    pub signer: SignerView,
    pub status: Seq<StatusLineView>,
    /// The dialog that is open, if any.
    pub modal: Option<Modal>,
}

impl View for KeystrModel {
    type V = KeystrModelView;

    open(crate) spec fn view(&self) -> KeystrModelView {
        KeystrModelView { signer: self.signer@, status: self.status@, modal: self.modal }
    }
}

/// What an action leads to: the dialog that is open afterwards, the commands
/// for the caller, and the status lines that were set.
pub struct Effect {
    pub modal: Option<Modal>,
    pub commands: Seq<Command>,
    pub lines: Seq<StatusLineView>,
}

/// The effect of leaving things as they are.
pub open spec fn no_effect(modal: Option<Modal>) -> Effect {
    Effect { modal, commands: Seq::empty(), lines: Seq::empty() }
}

/// The effect of handing one command to the caller.
pub open spec fn command_only(modal: Option<Modal>, command: Command) -> Effect {
    Effect { modal, commands: seq![command], lines: Seq::empty() }
}

/// The effect of clearing the keys.
pub open spec fn keys_cleared(modal: Option<Modal>) -> Effect {
    Effect {
        modal,
        commands: seq![Command::KeysClear],
        lines: with_status(Seq::empty(), "Keys cleared"@),
    }
}

/// The dialog that asks before the keys are cleared for `next`.
pub open spec fn ask_before(next: Option<Action>) -> Option<Modal> {
    Some(Modal::Confirmation(Confirmation::KeysClearBeforeAction(next)))
}

/// The effect of an action other than a yes to an open dialog. `modal` is the
/// dialog that is open and `keys_is_set` says whether the key store holds
/// keys. What would overwrite or drop keys that are set opens a dialog
/// instead; a no closes the dialog; a yes without a dialog does nothing; all
/// else is handed on as a command.
pub open spec fn direct_effect(modal: Option<Modal>, action: Action, keys_is_set: bool) -> Effect {
    match action {
        Action::DelegateDeeGenerate => command_only(modal, Command::DelegateDeeGenerate),
        Action::DelegateSign => command_only(modal, Command::DelegateSign),
        Action::KeysClearNoConfirm => keys_cleared(modal),
        Action::KeysClear => if keys_is_set {
            no_effect(ask_before(None))
        } else {
            keys_cleared(modal)
        },
        Action::KeysGenerate => if keys_is_set {
            no_effect(ask_before(Some(Action::KeysGenerate)))
        } else {
            Effect {
                modal: None,
                commands: seq![Command::KeysGenerate],
                lines: with_status(Seq::empty(), "New keypair generated"@),
            }
        },
        Action::KeysImportPubkey => command_only(modal, Command::KeysImportPubkey),
        Action::KeysImportSecretkey => command_only(modal, Command::KeysImportSecretkey),
        Action::KeysLoad => if keys_is_set {
            no_effect(ask_before(Some(Action::KeysLoad)))
        } else {
            command_only(modal, Command::KeysLoad)
        },
        Action::KeysSave => command_only(modal, Command::KeysSave),
        Action::KeysUnlock => command_only(modal, Command::KeysUnlock),
        Action::ConfirmationYes => no_effect(modal),
        Action::ConfirmationNo => no_effect(None),
        Action::SignerConnect => command_only(modal, Command::SignerConnect),
        Action::SignerDisconnect => command_only(modal, Command::SignerDisconnect),
        Action::SignerPendingIgnoreFirst => command_only(modal, Command::SignerPendingIgnoreFirst),
        Action::SignerPendingProcessFirst => command_only(
            modal,
            Command::SignerPendingProcessFirst,
        ),
    }
}

/// One effect after another.
pub open spec fn followed_by(first: Effect, second: Effect) -> Effect {
    Effect {
        modal: second.modal,
        commands: first.commands + second.commands,
        lines: first.lines + second.lines,
    }
}

/// The effect of an action. A yes to the open dialog closes it, clears the
/// keys, and then carries out the action that had asked, now that no keys
/// are set. Every other action has its direct effect.
pub open spec fn effect_of(modal: Option<Modal>, action: Action, keys_is_set: bool) -> Effect {
    match (action, modal) {
        (
            Action::ConfirmationYes,
            Some(Modal::Confirmation(Confirmation::KeysClearBeforeAction(next))),
        ) => match next {
            Some(next) => followed_by(keys_cleared(None), direct_effect(None, next, false)),
            None => keys_cleared(None),
        },
        _ => direct_effect(modal, action, keys_is_set),
    }
}

/// The status line that reports how something ended that either worked or
/// failed with an error.
pub open spec fn outcome_line(outcome: Result<(), Error>, done: Seq<char>) -> StatusLineView {
    match outcome {
        Ok(_) => StatusLineView { text: done, is_error: false },
        Err(e) => StatusLineView { text: error_text(e), is_error: true },
    }
}

impl KeystrModel {
    /// A model with a manager that has a key pair of its own, drawn at random,
    /// no session, no status line and no dialog.
    pub fn new() -> (res: Self)
        ensures
            res@.modal is None,
            res@.status == Seq::<StatusLineView>::empty(),
            res@.signer.connection is None,
            res@.signer.connect_uri_input == Seq::<char>::empty(),
            crate::keys::has_secret_key(res@.signer.app_id_keys),
    {
        let app_id = Keys::generate();
        KeystrModel { signer: Signer::new(&app_id), status: StatusMessages::new(), modal: None }
    }

    /// Creates the model at the start of the application and says what to do
    /// first: load the keys, where the settings allow keys to be kept.
    pub fn init(allows_persist: bool) -> (res: (Self, Vec<Command>))
        ensures
            res.0@.modal is None,
            res.0@.status == with_status(Seq::empty(), "Keystr started"@),
            res.0@.signer.connection is None,
            res.0@.signer.connect_uri_input == Seq::<char>::empty(),
            crate::keys::has_secret_key(res.0@.signer.app_id_keys),
            res.1@ == if allows_persist {
                seq![Command::KeysLoad]
            } else {
                Seq::<Command>::empty()
            },
    {
        let mut model = Self::new();
        model.status.set("Keystr started");
        let commands = if allows_persist {
            model.action(Action::KeysLoad, false)
        } else {
            Vec::new()
        };
        (model, commands)
    }

    /// The dialog that is open, if any.
    pub fn modal(&self) -> (res: Option<Modal>)
        ensures
            res == self@.modal,
    {
        self.modal
    }

    /// Carries out what is within the model of an action that is no yes to a
    /// dialog, and adds the commands for the rest.
    fn act_directly(&mut self, action: Action, keys_is_set: bool, commands: &mut Vec<Command>)
        ensures
            final(self)@.signer == old(self)@.signer,
            final(self)@.modal == direct_effect(old(self)@.modal, action, keys_is_set).modal,
            final(self)@.status == old(self)@.status + direct_effect(
                old(self)@.modal,
                action,
                keys_is_set,
            ).lines,
            final(commands)@ == old(commands)@ + direct_effect(
                old(self)@.modal,
                action,
                keys_is_set,
            ).commands,
    {
        match action {
            Action::DelegateDeeGenerate => commands.push(Command::DelegateDeeGenerate),
            Action::DelegateSign => commands.push(Command::DelegateSign),
            Action::KeysClearNoConfirm => {
                commands.push(Command::KeysClear);
                self.status.set("Keys cleared");
            },
            Action::KeysClear => {
                if keys_is_set {
                    self.modal = Some(
                        Modal::Confirmation(Confirmation::KeysClearBeforeAction(None)),
                    );
                } else {
                    commands.push(Command::KeysClear);
                    self.status.set("Keys cleared");
                }
            },
            Action::KeysGenerate => {
                if keys_is_set {
                    self.modal = Some(
                        Modal::Confirmation(
                            Confirmation::KeysClearBeforeAction(Some(Action::KeysGenerate)),
                        ),
                    );
                } else {
                    self.modal = None;
                    commands.push(Command::KeysGenerate);
                    self.status.set("New keypair generated");
                }
            },
            Action::KeysImportPubkey => commands.push(Command::KeysImportPubkey),
            Action::KeysImportSecretkey => commands.push(Command::KeysImportSecretkey),
            Action::KeysLoad => {
                if keys_is_set {
                    self.modal = Some(
                        Modal::Confirmation(
                            Confirmation::KeysClearBeforeAction(Some(Action::KeysLoad)),
                        ),
                    );
                } else {
                    commands.push(Command::KeysLoad);
                }
            },
            Action::KeysSave => commands.push(Command::KeysSave),
            Action::KeysUnlock => commands.push(Command::KeysUnlock),
            Action::ConfirmationYes => {},
            Action::ConfirmationNo => {
                self.modal = None;
            },
            Action::SignerConnect => commands.push(Command::SignerConnect),
            Action::SignerDisconnect => commands.push(Command::SignerDisconnect),
            Action::SignerPendingIgnoreFirst => commands.push(Command::SignerPendingIgnoreFirst),
            Action::SignerPendingProcessFirst => commands.push(Command::SignerPendingProcessFirst),
        }
    }

    /// Carries out an action of the operator. `keys_is_set` says whether the
    /// key store holds keys now. The result is what the caller is to do, in
    /// this order.
    pub fn action(&mut self, action: Action, keys_is_set: bool) -> (res: Vec<Command>)
        ensures
            final(self)@.signer == old(self)@.signer,
            final(self)@.modal == effect_of(old(self)@.modal, action, keys_is_set).modal,
            final(self)@.status == old(self)@.status + effect_of(
                old(self)@.modal,
                action,
                keys_is_set,
            ).lines,
            res@ == effect_of(old(self)@.modal, action, keys_is_set).commands,
    {
        let mut commands: Vec<Command> = Vec::new();
        match (action, self.modal) {
            (
                Action::ConfirmationYes,
                Some(Modal::Confirmation(Confirmation::KeysClearBeforeAction(next))),
            ) => {
                self.modal = None;
                self.act_directly(Action::KeysClearNoConfirm, keys_is_set, &mut commands);
                match next {
                    Some(next_action) => {
                        self.act_directly(next_action, false, &mut commands);
                    },
                    None => {},
                }
            },
            _ => {
                self.act_directly(action, keys_is_set, &mut commands);
            },
        }
        commands
    }

    /// Reports how creating the delegation ended.
    pub fn delegate_sign_done(&mut self, outcome: &Result<(), Error>)
        ensures
            final(self)@ == (KeystrModelView {
                status: old(self)@.status.push(outcome_line(*outcome, "Delegation created"@)),
                ..old(self)@
            }),
    {
        match outcome {
            Err(e) => self.status.set_error(e.message().as_str()),
            Ok(_) => self.status.set("Delegation created"),
        }
    }

    /// Reports how importing the public key ended.
    pub fn import_pubkey_done(&mut self, outcome: &Result<(), Error>)
        ensures
            final(self)@ == (KeystrModelView {
                status: old(self)@.status.push(outcome_line(*outcome, "Public key imported"@)),
                ..old(self)@
            }),
    {
        match outcome {
            Err(e) => self.status.set_error(e.message().as_str()),
            Ok(_) => self.status.set("Public key imported"),
        }
    }

    /// Connects the signer, where the key store could hand out a signing
    /// capability; where it could not, the status sink says so and nothing
    /// else happens. The result tells whether a session was opened, for which
    /// the caller is to start the transport.
    pub fn signer_connect(&mut self, has_signer: bool) -> (res: bool)
        ensures
            !has_signer ==> final(self)@ == (KeystrModelView {
                status: with_status(old(self)@.status, "Key pair is not loaded or unlocked!"@),
                ..old(self)@
            }),
            has_signer ==> final(self)@ == (KeystrModelView {
                signer: after_connect(old(self)@.signer, old(self)@.signer.connect_uri_input),
                status: reported(
                    old(self)@.status,
                    connect_report(
                        connect_outcome(old(self)@.signer, old(self)@.signer.connect_uri_input),
                    ),
                ),
                ..old(self)@
            }),
            res == (has_signer && connect_outcome(
                old(self)@.signer,
                old(self)@.signer.connect_uri_input,
            ) is Connected),
    {
        if has_signer {
            let had_session = self.signer.connection().is_some();
            self.signer.connect_action(&mut self.status);
            !had_session && self.signer.connection().is_some()
        } else {
            self.status.set("Key pair is not loaded or unlocked!");
            false
        }
    }
}

} // verus!
