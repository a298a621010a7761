use vstd::prelude::*;
use vstd::string::*;

use crate::protocol::{initiated, says, warns, Action, Command, Event, Phase, Recipient, Reply, Session};
use crate::secret::{secret_is_too_short, short_secret};
use crate::laws::{consistent, law_start_is_consistent, law_step_keeps_consistency};
use crate::text::{status_string, status_text};

verus! {

// ---------------------------------------------------------------------------
// The texts the commands answer with.
// ---------------------------------------------------------------------------

/// The title of the embed that refuses a short secret.
pub open spec fn secret_title() -> Seq<char> {
    "Error while restoring the wallet"@
}

/// The description of the embed that refuses a short secret.
pub open spec fn secret_warning() -> Seq<char> {
    "Secret must be greater than 10"@
}

/// The message that opens a transfer to `recipient`.
pub open spec fn introduction(recipient: Recipient) -> Seq<char> {
    recipient.name@ + "'s account was created at "@ + recipient.created_at@
}

// ---------------------------------------------------------------------------
// The transition relation.
// ---------------------------------------------------------------------------

/// `s` with its phase set to `p`, all else kept.
pub open spec fn with_phase(s: Session, p: Phase) -> Session {
    Session { phase: p, ..s }
}

/// A session that has learned nothing yet.
pub open spec fn fresh(owner: String, command: Command, p: Phase) -> Session {
    Session { owner, command, phase: p, opened: None, stored: None, confirmed: false }
}

/// The session ends in failure.
pub open spec fn aborts(s: Session, s2: Session, a: Action) -> bool {
    s2 == with_phase(s, Phase::Aborted) && a is Abort
}

/// The session posts its last message, `text`.
pub open spec fn closes_saying(s: Session, s2: Session, a: Action, text: Seq<char>) -> bool {
    s2 == with_phase(s, Phase::Closing) && says(a, text)
}

/// The session posts its last message, an error embed.
pub open spec fn closes_warning(
    s: Session,
    s2: Session,
    a: Action,
    title: Seq<char>,
    description: Seq<char>,
) -> bool {
    s2 == with_phase(s, Phase::Closing) && warns(a, title, description)
}

/// How a command begins, for the user `owner`.
pub open spec fn starts(owner: String, command: Command, s: Session, a: Action) -> bool {
    match command {
        Command::Create { secret } => if short_secret(secret@) {
            s == fresh(owner, command, Phase::Closing) && warns(a, secret_title(), secret_warning())
        } else {
            s == fresh(owner, command, Phase::AwaitOpened) && a == (Action::CheckOpened { owner })
        },
        Command::Open { secret } => if short_secret(secret@) {
            s == fresh(owner, command, Phase::Closing) && warns(a, secret_title(), secret_warning())
        } else {
            s == fresh(owner, command, Phase::AwaitOpenedWallet) && a == (Action::GetOpenedWallet {
                owner,
            })
        },
        Command::Restore { mnemonic, secret } => if short_secret(secret@) {
            s == fresh(owner, command, Phase::Closing) && warns(a, secret_title(), secret_warning())
        } else {
            s == fresh(owner, command, Phase::AwaitMnemonic) && a == (Action::CheckMnemonic {
                phrase: mnemonic,
            })
        },
        Command::Send { recipient, .. } => if recipient.bot || recipient.system {
            s == fresh(owner, command, Phase::Closing) && says(a, "user is a bot or a system user"@)
        } else {
            s == fresh(owner, command, Phase::Introduced) && says(a, introduction(recipient))
        },
        _ => s == fresh(owner, command, Phase::AwaitOpened) && a == (Action::CheckOpened { owner }),
    }
}

/// What a command does once it knows whether its owner has a wallet
/// (`s.opened`, and `s.stored` when the wallet is not opened).
pub open spec fn decided(s: Session, s2: Session, a: Action) -> bool {
    match s.command {
        Command::Create { secret } => if initiated(s) {
            closes_saying(s, s2, a, "a discord wallet already exists"@)
        } else {
            s2 == with_phase(s, Phase::AwaitCreated) && a == (Action::CreateWallet {
                owner: s.owner,
                secret,
            })
        },
        Command::Status => closes_saying(
            s,
            s2,
            a,
            status_text(s.opened == Some(true), initiated(s)),
        ),
        Command::Debug => s2 == with_phase(s, Phase::AwaitAccounts) && a is ListAccounts,
        Command::Destroy => if !initiated(s) {
            closes_saying(s, s2, a, "the wallet is not initiated, cannot destroy a non existing thing"@)
        } else {
            s2 == with_phase(s, Phase::AwaitConfirmation) && a is AskConfirmation
        },
        Command::Send { .. } => if !initiated(s) {
            closes_saying(s, s2, a, "wallet not initiated yet"@)
        } else if s.opened != Some(true) {
            closes_saying(s, s2, a, "wallet not opened"@)
        } else {
            s2 == with_phase(s, Phase::AwaitOpenedWallet) && a == (Action::GetOpenedWallet {
                owner: s.owner,
            })
        },
        _ => aborts(s, s2, a),
    }
}

/// Finding out whether the owner has a wallet: the opened set is asked
/// first, the store only when no wallet is opened.
pub open spec fn initiation_next(s: Session, e: Event, s2: Session, a: Action) -> bool {
    match s.phase {
        Phase::AwaitOpened => match e {
            Event::Opened(b) => if b {
                decided(Session { opened: Some(true), ..s }, s2, a)
            } else {
                s2 == Session { phase: Phase::AwaitStored, opened: Some(false), ..s } && a == (
                Action::CheckStored { owner: s.owner })
            },
            _ => aborts(s, s2, a),
        },
        Phase::AwaitStored => match e {
            Event::Stored(b) => decided(Session { stored: Some(b), ..s }, s2, a),
            _ => aborts(s, s2, a),
        },
        _ => aborts(s, s2, a),
    }
}

/// The steps of `create`.
pub open spec fn create_next(s: Session, e: Event, s2: Session, a: Action) -> bool {
    match s.phase {
        Phase::AwaitOpened => initiation_next(s, e, s2, a),
        Phase::AwaitStored => initiation_next(s, e, s2, a),
        Phase::AwaitCreated => match e {
            Event::Created { phrase, address } => closes_saying(
                s,
                s2,
                a,
                phrase@ + "\n"@ + address@,
            ),
            _ => aborts(s, s2, a),
        },
        _ => aborts(s, s2, a),
    }
}

/// The steps of `open`.
pub open spec fn open_next(s: Session, secret: String, e: Event, s2: Session, a: Action) -> bool {
    match s.phase {
        Phase::AwaitOpenedWallet => match e {
            Event::OpenedWallet(found) => match found {
                Some(address) => closes_saying(s, s2, a, address@),
                None => s2 == with_phase(s, Phase::AwaitOpen) && a == (Action::OpenWallet {
                    owner: s.owner,
                    secret,
                }),
            },
            _ => aborts(s, s2, a),
        },
        Phase::AwaitOpen => match e {
            Event::WalletReady { address } => closes_saying(s, s2, a, address@),
            Event::WrongSecret => closes_warning(
                s,
                s2,
                a,
                "Error while opening the wallet"@,
                "Secret is wrong"@,
            ),
            _ => aborts(s, s2, a),
        },
        _ => aborts(s, s2, a),
    }
}

/// `close` takes the opened wallet out and closes it, then says `done`.
pub open spec fn closing_next(s: Session, e: Event, s2: Session, a: Action, done: Seq<char>) -> bool {
    match s.phase {
        Phase::AwaitRemoved => match e {
            Event::Removed(b) => if b {
                s2 == with_phase(s, Phase::AwaitClosed) && a is CloseWallet
            } else {
                closes_saying(s, s2, a, done)
            },
            _ => aborts(s, s2, a),
        },
        Phase::AwaitClosed => match e {
            Event::Closed => closes_saying(s, s2, a, done),
            _ => aborts(s, s2, a),
        },
        _ => aborts(s, s2, a),
    }
}

/// The steps of `close`.
pub open spec fn close_next(s: Session, e: Event, s2: Session, a: Action) -> bool {
    match s.phase {
        Phase::AwaitOpened => match e {
            Event::Opened(b) => if b {
                s2 == Session { phase: Phase::AwaitRemoved, opened: Some(true), ..s } && a == (
                Action::RemoveOpenedWallet { owner: s.owner })
            } else {
                s2 == Session { phase: Phase::Closing, opened: Some(false), ..s } && says(
                    a,
                    "wallet closed"@,
                )
            },
            _ => aborts(s, s2, a),
        },
        _ => closing_next(s, e, s2, a, "wallet closed"@),
    }
}

/// The steps of `status` and `debug`.
pub open spec fn report_next(s: Session, e: Event, s2: Session, a: Action) -> bool {
    match s.phase {
        Phase::AwaitOpened => initiation_next(s, e, s2, a),
        Phase::AwaitStored => initiation_next(s, e, s2, a),
        Phase::AwaitAccounts => match e {
            Event::Accounts { text } => closes_saying(
                s,
                s2,
                a,
                status_text(s.opened == Some(true), initiated(s)) + "\n"@ + text@,
            ),
            _ => aborts(s, s2, a),
        },
        _ => aborts(s, s2, a),
    }
}

/// The answer typed in the confirmation dialog is the confirmation word.
pub open spec fn confirms(answer: Option<String>) -> bool {
    answer matches Some(t) && t@ == "destroy"@
}

/// The steps of `destroy`: after the confirmation word, the opened wallet
/// (if any) is taken out and closed, the stored wallet is erased, and only
/// then is "destroy ok" said.
pub open spec fn destroy_next(s: Session, e: Event, s2: Session, a: Action) -> bool {
    match s.phase {
        Phase::AwaitOpened => initiation_next(s, e, s2, a),
        Phase::AwaitStored => initiation_next(s, e, s2, a),
        Phase::AwaitConfirmation => match e {
            Event::Confirmation(answer) => if confirms(answer) {
                if s.opened == Some(true) {
                    s2 == Session { phase: Phase::AwaitRemoved, confirmed: true, ..s } && a == (
                    Action::RemoveOpenedWallet { owner: s.owner })
                } else {
                    s2 == Session { phase: Phase::AwaitErased, confirmed: true, ..s } && a == (
                    Action::EraseStoredWallet { owner: s.owner })
                }
            } else {
                closes_saying(s, s2, a, "destroy aborted"@)
            },
            _ => aborts(s, s2, a),
        },
        Phase::AwaitRemoved => match e {
            Event::Removed(b) => if b {
                s2 == with_phase(s, Phase::AwaitClosed) && a is CloseWallet
            } else {
                s2 == with_phase(s, Phase::AwaitErased) && a == (Action::EraseStoredWallet {
                    owner: s.owner,
                })
            },
            _ => aborts(s, s2, a),
        },
        Phase::AwaitClosed => match e {
            Event::Closed => s2 == with_phase(s, Phase::AwaitErased) && a == (
            Action::EraseStoredWallet { owner: s.owner }),
            _ => aborts(s, s2, a),
        },
        Phase::AwaitErased => match e {
            Event::Erased => closes_saying(s, s2, a, "destroy ok"@),
            _ => aborts(s, s2, a),
        },
        _ => aborts(s, s2, a),
    }
}

/// The steps of `restore`.
pub open spec fn restore_next(
    s: Session,
    secret: String,
    e: Event,
    s2: Session,
    a: Action,
) -> bool {
    match s.phase {
        Phase::AwaitMnemonic => match e {
            Event::MnemonicChecked(valid) => if valid {
                s2 == with_phase(s, Phase::AwaitRestored) && a == (Action::RestoreWallet {
                    owner: s.owner,
                    secret,
                })
            } else {
                closes_warning(
                    s,
                    s2,
                    a,
                    "Error while restoring the wallet"@,
                    "Mnemonic is not valid"@,
                )
            },
            _ => aborts(s, s2, a),
        },
        Phase::AwaitRestored => match e {
            Event::Restored { address } => closes_saying(s, s2, a, address@),
            _ => aborts(s, s2, a),
        },
        _ => aborts(s, s2, a),
    }
}

/// The funds will go to `address`: the amount is parsed next.
pub open spec fn resolves(s: Session, amount: String, address: String, s2: Session, a: Action) -> bool {
    s2 == with_phase(s, Phase::AwaitAmount { address }) && a == (Action::ParseAmount { amount })
}

/// The steps of `send`.
pub open spec fn send_next(
    s: Session,
    recipient: Recipient,
    amount: String,
    secret: String,
    e: Event,
    s2: Session,
    a: Action,
) -> bool {
    match s.phase {
        Phase::Introduced => if e is Replied {
            s2 == with_phase(s, Phase::AwaitOpened) && a == (Action::CheckOpened { owner: s.owner })
        } else {
            aborts(s, s2, a)
        },
        Phase::AwaitOpened => initiation_next(s, e, s2, a),
        Phase::AwaitStored => initiation_next(s, e, s2, a),
        Phase::AwaitOpenedWallet => match e {
            Event::OpenedWallet(found) => if found is Some {
                s2 == with_phase(s, Phase::AwaitRecipient) && a == (Action::FindRecipientWallet {
                    recipient: recipient.id,
                })
            } else {
                closes_saying(s, s2, a, "unexpected error: wallet not opened"@)
            },
            _ => aborts(s, s2, a),
        },
        Phase::AwaitRecipient => match e {
            Event::RecipientFound { address } => resolves(s, amount, address, s2, a),
            Event::RecipientNotFound => s2 == with_phase(s, Phase::AwaitTransition) && a == (
            Action::FindTransitionWallet { sender: s.owner, recipient: recipient.id }),
            Event::RecipientLookupFailed { reason } => closes_saying(
                s,
                s2,
                a,
                "Error: "@ + reason@,
            ),
            _ => aborts(s, s2, a),
        },
        Phase::AwaitTransition => match e {
            Event::TransitionFound(found) => match found {
                Some(address) => resolves(s, amount, address, s2, a),
                None => s2 == with_phase(s, Phase::AwaitTransitionCreated) && a == (
                Action::CreateTransitionWallet { sender: s.owner, recipient: recipient.id }),
            },
            _ => aborts(s, s2, a),
        },
        Phase::AwaitTransitionCreated => match e {
            Event::TransitionCreated { address } => resolves(s, amount, address, s2, a),
            _ => aborts(s, s2, a),
        },
        Phase::AwaitAmount { address } => match e {
            Event::Amount(sompi) => s2 == with_phase(s, Phase::AwaitTransaction) && a == (
            Action::SendTransaction {
                owner: s.owner,
                address,
                sompi,
                secret,
                priority_fee_sompi: 0,
                payload: None,
                payment_secret: None,
            }),
            _ => aborts(s, s2, a),
        },
        Phase::AwaitTransaction => match e {
            Event::TransactionSent { summary, hashes } => closes_saying(
                s,
                s2,
                a,
                summary@ + " "@ + hashes@,
            ),
            _ => aborts(s, s2, a),
        },
        _ => aborts(s, s2, a),
    }
}

/// One step of a session: `s` receives `e`, becomes `s2` and asks for `a`.
/// An event that does not answer what the session waits for ends it in
/// failure; a finished session stays as it is.
pub open spec fn next(s: Session, e: Event, s2: Session, a: Action) -> bool {
    match s.phase {
        Phase::Done => s2 == s && a is Finish,
        Phase::Aborted => s2 == s && a is Abort,
        Phase::Closing => if e is Replied {
            s2 == with_phase(s, Phase::Done) && a is Finish
        } else {
            aborts(s, s2, a)
        },
        _ => match s.command {
            Command::Create { .. } => create_next(s, e, s2, a),
            Command::Open { secret } => open_next(s, secret, e, s2, a),
            Command::Close => close_next(s, e, s2, a),
            Command::Status => report_next(s, e, s2, a),
            Command::Debug => report_next(s, e, s2, a),
            Command::Destroy => destroy_next(s, e, s2, a),
            Command::Restore { secret, .. } => restore_next(s, secret, e, s2, a),
            Command::Send { recipient, amount, secret } => send_next(
                s,
                recipient,
                amount,
                secret,
                e,
                s2,
                a,
            ),
        },
    }
}


// ---------------------------------------------------------------------------
// The executable machine.
// ---------------------------------------------------------------------------

/// The embed that refuses a short secret.
fn secret_refusal() -> (a: Action)
    ensures
        warns(a, secret_title(), secret_warning()),
{
    Action::Reply(
        Reply::Error {
            title: String::from_str("Error while restoring the wallet"),
            description: String::from_str("Secret must be greater than 10"),
        },
    )
}

impl Session {
    /// Begins `command` for the user whose id is `owner`: the first session
    /// and what it asks for.
    pub fn start(owner: String, command: Command) -> (r: (Session, Action))
        ensures
            starts(owner, command, r.0, r.1),
    {
        let (phase, action) = match &command {
            Command::Create { secret } => {
                if secret_is_too_short(secret) {
                    (Phase::Closing, secret_refusal())
                } else {
                    (Phase::AwaitOpened, Action::CheckOpened { owner: owner.clone() })
                }
            },
            Command::Open { secret } => {
                if secret_is_too_short(secret) {
                    (Phase::Closing, secret_refusal())
                } else {
                    (Phase::AwaitOpenedWallet, Action::GetOpenedWallet { owner: owner.clone() })
                }
            },
            Command::Restore { mnemonic, secret } => {
                if secret_is_too_short(secret) {
                    (Phase::Closing, secret_refusal())
                } else {
                    (Phase::AwaitMnemonic, Action::CheckMnemonic { phrase: mnemonic.clone() })
                }
            },
            Command::Send { recipient, .. } => {
                if recipient.bot || recipient.system {
                    (
                        Phase::Closing,
                        Action::Reply(
                            Reply::Say(String::from_str("user is a bot or a system user")),
                        ),
                    )
                } else {
                    let mut text = recipient.name.clone();
                    text.append("'s account was created at ");
                    text.append(recipient.created_at.as_str());
                    (Phase::Introduced, Action::Reply(Reply::Say(text)))
                }
            },
            _ => (Phase::AwaitOpened, Action::CheckOpened { owner: owner.clone() }),
        };
        (Session { owner, command, phase, opened: None, stored: None, confirmed: false }, action)
    }

    /// Hands the session the answer to what it asked for: the next session
    /// and what it asks for now.
    pub fn advance(self, event: Event) -> (r: (Session, Action))
        ensures
            next(self, event, r.0, r.1),
    {
        if matches!(self.phase, Phase::Done) {
            return (self, Action::Finish);
        }
        if matches!(self.phase, Phase::Aborted) {
            return (self, Action::Abort);
        }
        if matches!(self.phase, Phase::Closing) {
            if matches!(event, Event::Replied) {
                return (self.into_phase(Phase::Done), Action::Finish);
            } else {
                return self.abort();
            }
        }
        if matches!(self.command, Command::Create { .. }) {
            self.create_step(event)
        } else if matches!(self.command, Command::Open { .. }) {
            self.open_step(event)
        } else if matches!(self.command, Command::Close) {
            self.close_step(event)
        } else if matches!(self.command, Command::Status) || matches!(self.command, Command::Debug) {
            self.report_step(event)
        } else if matches!(self.command, Command::Destroy) {
            self.destroy_step(event)
        } else if matches!(self.command, Command::Restore { .. }) {
            self.restore_step(event)
        } else {
            self.send_step(event)
        }
    }

    fn into_phase(self, p: Phase) -> (s: Session)
        ensures
            s == with_phase(self, p),
    {
        Session { phase: p, ..self }
    }

    fn abort(self) -> (r: (Session, Action))
        ensures
            aborts(self, r.0, r.1),
    {
        (self.into_phase(Phase::Aborted), Action::Abort)
    }

    fn close_saying(self, text: String) -> (r: (Session, Action))
        ensures
            closes_saying(self, r.0, r.1, text@),
    {
        (self.into_phase(Phase::Closing), Action::Reply(Reply::Say(text)))
    }

    fn owner_has_wallet(&self) -> (b: bool)
        ensures
            b == initiated(*self),
    {
        matches!(self.opened, Some(true)) || matches!(self.stored, Some(true))
    }

    fn decide(self) -> (r: (Session, Action))
        ensures
            decided(self, r.0, r.1),
    {
        let has_wallet = self.owner_has_wallet();
        let is_opened = matches!(self.opened, Some(true));
        match &self.command {
            Command::Create { secret } => {
                if has_wallet {
                    self.close_saying(String::from_str("a discord wallet already exists"))
                } else {
                    let secret = secret.clone();
                    let owner = self.owner.clone();
                    (self.into_phase(Phase::AwaitCreated), Action::CreateWallet { owner, secret })
                }
            },
            Command::Status => {
                let text = status_string(is_opened, has_wallet);
                self.close_saying(text)
            },
            Command::Debug => (self.into_phase(Phase::AwaitAccounts), Action::ListAccounts),
            Command::Destroy => {
                if !has_wallet {
                    self.close_saying(
                        String::from_str(
                            "the wallet is not initiated, cannot destroy a non existing thing",
                        ),
                    )
                } else {
                    (self.into_phase(Phase::AwaitConfirmation), Action::AskConfirmation)
                }
            },
            Command::Send { .. } => {
                if !has_wallet {
                    self.close_saying(String::from_str("wallet not initiated yet"))
                } else if !is_opened {
                    self.close_saying(String::from_str("wallet not opened"))
                } else {
                    let owner = self.owner.clone();
                    (self.into_phase(Phase::AwaitOpenedWallet), Action::GetOpenedWallet { owner })
                }
            },
            _ => self.abort(),
        }
    }

    fn initiation_step(self, e: Event) -> (r: (Session, Action))
        requires
            self.phase is AwaitOpened || self.phase is AwaitStored,
        ensures
            initiation_next(self, e, r.0, r.1),
    {
        if matches!(self.phase, Phase::AwaitOpened) {
            match e {
                Event::Opened(b) => {
                    if b {
                        Session { opened: Some(true), ..self }.decide()
                    } else {
                        let owner = self.owner.clone();
                        (
                            Session { phase: Phase::AwaitStored, opened: Some(false), ..self },
                            Action::CheckStored { owner },
                        )
                    }
                },
                _ => self.abort(),
            }
        } else {
            match e {
                Event::Stored(b) => Session { stored: Some(b), ..self }.decide(),
                _ => self.abort(),
            }
        }
    }

    fn create_step(self, e: Event) -> (r: (Session, Action))
        requires
            self.command is Create,
            !(self.phase is Done || self.phase is Aborted || self.phase is Closing),
        ensures
            next(self, e, r.0, r.1),
    {
        if matches!(self.phase, Phase::AwaitOpened) || matches!(self.phase, Phase::AwaitStored) {
            self.initiation_step(e)
        } else if matches!(self.phase, Phase::AwaitCreated) {
            match e {
                Event::Created { phrase, address } => {
                    let mut text = phrase;
                    text.append("\n");
                    text.append(address.as_str());
                    self.close_saying(text)
                },
                _ => self.abort(),
            }
        } else {
            self.abort()
        }
    }

    fn open_step(self, e: Event) -> (r: (Session, Action))
        requires
            self.command is Open,
            !(self.phase is Done || self.phase is Aborted || self.phase is Closing),
        ensures
            next(self, e, r.0, r.1),
    {
        if matches!(self.phase, Phase::AwaitOpenedWallet) {
            match e {
                Event::OpenedWallet(Some(address)) => self.close_saying(address),
                Event::OpenedWallet(None) => {
                    let secret = match &self.command {
                        Command::Open { secret } => secret.clone(),
                        _ => String::new(),
                    };
                    let owner = self.owner.clone();
                    (self.into_phase(Phase::AwaitOpen), Action::OpenWallet { owner, secret })
                },
                _ => self.abort(),
            }
        } else if matches!(self.phase, Phase::AwaitOpen) {
            match e {
                Event::WalletReady { address } => self.close_saying(address),
                Event::WrongSecret => (
                    self.into_phase(Phase::Closing),
                    Action::Reply(
                        Reply::Error {
                            title: String::from_str("Error while opening the wallet"),
                            description: String::from_str("Secret is wrong"),
                        },
                    ),
                ),
                _ => self.abort(),
            }
        } else {
            self.abort()
        }
    }

    fn closing_step(self, e: Event, done: String) -> (r: (Session, Action))
        ensures
            closing_next(self, e, r.0, r.1, done@),
    {
        if matches!(self.phase, Phase::AwaitRemoved) {
            match e {
                Event::Removed(b) => {
                    if b {
                        (self.into_phase(Phase::AwaitClosed), Action::CloseWallet)
                    } else {
                        self.close_saying(done)
                    }
                },
                _ => self.abort(),
            }
        } else if matches!(self.phase, Phase::AwaitClosed) {
            match e {
                Event::Closed => self.close_saying(done),
                _ => self.abort(),
            }
        } else {
            self.abort()
        }
    }

    fn close_step(self, e: Event) -> (r: (Session, Action))
        requires
            self.command is Close,
            !(self.phase is Done || self.phase is Aborted || self.phase is Closing),
        ensures
            next(self, e, r.0, r.1),
    {
        if matches!(self.phase, Phase::AwaitOpened) {
            match e {
                Event::Opened(b) => {
                    if b {
                        let owner = self.owner.clone();
                        (
                            Session { phase: Phase::AwaitRemoved, opened: Some(true), ..self },
                            Action::RemoveOpenedWallet { owner },
                        )
                    } else {
                        (
                            Session { phase: Phase::Closing, opened: Some(false), ..self },
                            Action::Reply(Reply::Say(String::from_str("wallet closed"))),
                        )
                    }
                },
                _ => self.abort(),
            }
        } else {
            self.closing_step(e, String::from_str("wallet closed"))
        }
    }

    fn report_step(self, e: Event) -> (r: (Session, Action))
        requires
            self.command is Status || self.command is Debug,
            !(self.phase is Done || self.phase is Aborted || self.phase is Closing),
        ensures
            next(self, e, r.0, r.1),
    {
        if matches!(self.phase, Phase::AwaitOpened) || matches!(self.phase, Phase::AwaitStored) {
            self.initiation_step(e)
        } else if matches!(self.phase, Phase::AwaitAccounts) {
            match e {
                Event::Accounts { text } => {
                    let has_wallet = self.owner_has_wallet();
                    let is_opened = matches!(self.opened, Some(true));
                    let mut reply = status_string(is_opened, has_wallet);
                    reply.append("\n");
                    reply.append(text.as_str());
                    self.close_saying(reply)
                },
                _ => self.abort(),
            }
        } else {
            self.abort()
        }
    }

    fn erase(self) -> (r: (Session, Action))
        ensures
            r.0 == with_phase(self, Phase::AwaitErased),
            r.1 == (Action::EraseStoredWallet { owner: self.owner }),
    {
        let owner = self.owner.clone();
        (self.into_phase(Phase::AwaitErased), Action::EraseStoredWallet { owner })
    }

    fn destroy_step(self, e: Event) -> (r: (Session, Action))
        requires
            self.command is Destroy,
            !(self.phase is Done || self.phase is Aborted || self.phase is Closing),
        ensures
            next(self, e, r.0, r.1),
    {
        if matches!(self.phase, Phase::AwaitOpened) || matches!(self.phase, Phase::AwaitStored) {
            self.initiation_step(e)
        } else if matches!(self.phase, Phase::AwaitConfirmation) {
            match e {
                Event::Confirmation(answer) => {
                    if confirmation_given(&answer) {
                        let owner = self.owner.clone();
                        if matches!(self.opened, Some(true)) {
                            (
                                Session { phase: Phase::AwaitRemoved, confirmed: true, ..self },
                                Action::RemoveOpenedWallet { owner },
                            )
                        } else {
                            (
                                Session { phase: Phase::AwaitErased, confirmed: true, ..self },
                                Action::EraseStoredWallet { owner },
                            )
                        }
                    } else {
                        self.close_saying(String::from_str("destroy aborted"))
                    }
                },
                _ => self.abort(),
            }
        } else if matches!(self.phase, Phase::AwaitRemoved) {
            match e {
                Event::Removed(b) => {
                    if b {
                        (self.into_phase(Phase::AwaitClosed), Action::CloseWallet)
                    } else {
                        self.erase()
                    }
                },
                _ => self.abort(),
            }
        } else if matches!(self.phase, Phase::AwaitClosed) {
            match e {
                Event::Closed => self.erase(),
                _ => self.abort(),
            }
        } else if matches!(self.phase, Phase::AwaitErased) {
            match e {
                Event::Erased => self.close_saying(String::from_str("destroy ok")),
                _ => self.abort(),
            }
        } else {
            self.abort()
        }
    }

    fn restore_step(self, e: Event) -> (r: (Session, Action))
        requires
            self.command is Restore,
            !(self.phase is Done || self.phase is Aborted || self.phase is Closing),
        ensures
            next(self, e, r.0, r.1),
    {
        if matches!(self.phase, Phase::AwaitMnemonic) {
            match e {
                Event::MnemonicChecked(valid) => {
                    if valid {
                        let secret = match &self.command {
                            Command::Restore { secret, .. } => secret.clone(),
                            _ => String::new(),
                        };
                        let owner = self.owner.clone();
                        (self.into_phase(Phase::AwaitRestored), Action::RestoreWallet { owner, secret })
                    } else {
                        (
                            self.into_phase(Phase::Closing),
                            Action::Reply(
                                Reply::Error {
                                    title: String::from_str("Error while restoring the wallet"),
                                    description: String::from_str("Mnemonic is not valid"),
                                },
                            ),
                        )
                    }
                },
                _ => self.abort(),
            }
        } else if matches!(self.phase, Phase::AwaitRestored) {
            match e {
                Event::Restored { address } => self.close_saying(address),
                _ => self.abort(),
            }
        } else {
            self.abort()
        }
    }

    fn send_amount(&self) -> (amount: String)
        requires
            self.command is Send,
        ensures
            amount == self.command->Send_amount,
    {
        match &self.command {
            Command::Send { amount, .. } => amount.clone(),
            _ => String::new(),
        }
    }

    fn send_recipient_id(&self) -> (id: String)
        requires
            self.command is Send,
        ensures
            id == self.command->Send_recipient.id,
    {
        match &self.command {
            Command::Send { recipient, .. } => recipient.id.clone(),
            _ => String::new(),
        }
    }

    fn resolve(self, address: String) -> (r: (Session, Action))
        requires
            self.command is Send,
        ensures
            resolves(self, self.command->Send_amount, address, r.0, r.1),
    {
        let amount = self.send_amount();
        (self.into_phase(Phase::AwaitAmount { address }), Action::ParseAmount { amount })
    }

    fn send_step(self, e: Event) -> (r: (Session, Action))
        requires
            self.command is Send,
            !(self.phase is Done || self.phase is Aborted || self.phase is Closing),
        ensures
            next(self, e, r.0, r.1),
    {
        if matches!(self.phase, Phase::Introduced) {
            if matches!(e, Event::Replied) {
                let owner = self.owner.clone();
                (self.into_phase(Phase::AwaitOpened), Action::CheckOpened { owner })
            } else {
                self.abort()
            }
        } else if matches!(self.phase, Phase::AwaitOpened) || matches!(self.phase, Phase::AwaitStored) {
            self.initiation_step(e)
        } else if matches!(self.phase, Phase::AwaitOpenedWallet) {
            match e {
                Event::OpenedWallet(found) => {
                    if found.is_some() {
                        let recipient = self.send_recipient_id();
                        (self.into_phase(Phase::AwaitRecipient), Action::FindRecipientWallet { recipient })
                    } else {
                        self.close_saying(String::from_str("unexpected error: wallet not opened"))
                    }
                },
                _ => self.abort(),
            }
        } else if matches!(self.phase, Phase::AwaitRecipient) {
            match e {
                Event::RecipientFound { address } => self.resolve(address),
                Event::RecipientNotFound => {
                    let recipient = self.send_recipient_id();
                    let sender = self.owner.clone();
                    (
                        self.into_phase(Phase::AwaitTransition),
                        Action::FindTransitionWallet { sender, recipient },
                    )
                },
                Event::RecipientLookupFailed { reason } => {
                    let mut text = String::from_str("Error: ");
                    text.append(reason.as_str());
                    self.close_saying(text)
                },
                _ => self.abort(),
            }
        } else if matches!(self.phase, Phase::AwaitTransition) {
            match e {
                Event::TransitionFound(Some(address)) => self.resolve(address),
                Event::TransitionFound(None) => {
                    let recipient = self.send_recipient_id();
                    let sender = self.owner.clone();
                    (
                        self.into_phase(Phase::AwaitTransitionCreated),
                        Action::CreateTransitionWallet { sender, recipient },
                    )
                },
                _ => self.abort(),
            }
        } else if matches!(self.phase, Phase::AwaitTransitionCreated) {
            match e {
                Event::TransitionCreated { address } => self.resolve(address),
                _ => self.abort(),
            }
        } else if matches!(self.phase, Phase::AwaitAmount { .. }) {
            match e {
                Event::Amount(sompi) => {
                    let Session { owner, command, phase, opened, stored, confirmed } = self;
                    let address = match phase {
                        Phase::AwaitAmount { address } => address,
                        _ => String::new(),
                    };
                    let secret = match &command {
                        Command::Send { secret, .. } => secret.clone(),
                        _ => String::new(),
                    };
                    let action = Action::SendTransaction {
                        owner: owner.clone(),
                        address,
                        sompi,
                        secret,
                        priority_fee_sompi: 0,
                        payload: None,
                        payment_secret: None,
                    };
                    (
                        Session {
                            owner,
                            command,
                            phase: Phase::AwaitTransaction,
                            opened,
                            stored,
                            confirmed,
                        },
                        action,
                    )
                },
                _ => self.abort(),
            }
        } else if matches!(self.phase, Phase::AwaitTransaction) {
            match e {
                Event::TransactionSent { summary, hashes } => {
                    let mut text = summary;
                    text.append(" ");
                    text.append(hashes.as_str());
                    self.close_saying(text)
                },
                _ => self.abort(),
            }
        } else {
            self.abort()
        }
    }
}

/// Whether the answer typed in the confirmation dialog is the confirmation word.
pub fn confirmation_given(answer: &Option<String>) -> (b: bool)
    ensures
        b == confirms(*answer),
        b <==> (answer is Some && answer->0@ == "destroy"@),
{
    match answer {
        Some(t) => {
            let word = String::from_str("destroy");
            *t == word
        },
        None => false,
    }
}


/// A command in progress for one user: a session that only `start` and
/// `advance` can make, so that it is always consistent and every law of
/// `laws` about consistent sessions holds of it.
#[derive(Debug)]
pub struct CommandRun {
    session: Session,
}

impl CommandRun {
    /// The session this run stands at.
    pub closed spec fn current(self) -> Session {
        self.session
    }

    #[verifier::type_invariant]
    spec fn well_formed(self) -> bool {
        consistent(self.session)
    }

    /// Begins `command` for the user whose id is `owner`.
    pub fn start(owner: String, command: Command) -> (r: (CommandRun, Action))
        ensures
            starts(owner, command, r.0.current(), r.1),
            consistent(r.0.current()),
    {
        let (session, action) = Session::start(owner, command);
        proof {
            law_start_is_consistent(owner, command, session, action);
        }
        (CommandRun { session }, action)
    }

    /// Hands the run the answer to what it asked for.
    pub fn advance(self, event: Event) -> (r: (CommandRun, Action))
        ensures
            next(self.current(), event, r.0.current(), r.1),
            consistent(r.0.current()),
    {
        proof {
            use_type_invariant(&self);
        }
        let CommandRun { session } = self;
        let ghost before = session;
        let ghost answer = event;
        let (session, action) = session.advance(event);
        proof {
            law_step_keeps_consistency(before, answer, session, action);
        }
        (CommandRun { session }, action)
    }

    /// The session this run stands at.
    pub fn session(&self) -> (s: &Session)
        ensures
            *s == self.current(),
            consistent(*s),
    {
        proof {
            use_type_invariant(self);
        }
        &self.session
    }
}

} // verus!
