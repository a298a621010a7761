//! What every command does at every step, stated from its inputs: the
//! arguments typed, the facts learned and the event just handed in.

use vstd::prelude::*;
use vstd::utf8::encode_utf8;

use crate::flow::{next, starts};
use crate::laws::consistent;
use crate::protocol::{Action, Command, Event, Phase, Reply, Session};
use crate::settings::SettingsError;

verus! {

/// `a` posts the public message `text`.
pub open spec fn posts(a: Action, text: Seq<char>) -> bool {
    a matches Action::Reply(Reply::Say(t)) && t@ == text
}

/// `a` posts the ephemeral error embed with `title` and `description`.
pub open spec fn posts_error(a: Action, title: Seq<char>, description: Seq<char>) -> bool {
    a matches Action::Reply(Reply::Error { title: t, description: d }) && t@ == title && d@
        == description
}

/// How `{}` prints a boolean.
pub open spec fn shown(b: bool) -> Seq<char> {
    if b {
        "true"@
    } else {
        "false"@
    }
}

/// The session ended in failure.
pub open spec fn failed(s: Session, s2: Session, a: Action) -> bool {
    a is Abort && s2.phase is Aborted && s2.owner == s.owner && s2.command == s.command
}

/// A secret of at least ten bytes lets `create`, `open` and `restore` go on
/// to their first question: whether a wallet is opened, which wallet is
/// opened, and whether the mnemonic phrase is valid.
pub proof fn law_long_secret_goes_on(owner: String, command: Command, s: Session, a: Action)
    requires
        starts(owner, command, s, a),
    ensures
        match command {
            Command::Create { secret } => encode_utf8(secret@).len() >= 10 ==> a == (
            Action::CheckOpened { owner }) && s.phase is AwaitOpened,
            Command::Open { secret } => encode_utf8(secret@).len() >= 10 ==> a == (
            Action::GetOpenedWallet { owner }) && s.phase is AwaitOpenedWallet,
            Command::Restore { mnemonic, secret } => encode_utf8(secret@).len() >= 10 ==> a == (
            Action::CheckMnemonic { phrase: mnemonic }) && s.phase is AwaitMnemonic,
            _ => true,
        },
{
}

/// `send` refuses a bot or a system account at once; to anyone else it first
/// posts when the recipient's account was created.
pub proof fn law_send_first_names_the_recipient(
    owner: String,
    command: Command,
    s: Session,
    a: Action,
)
    requires
        starts(owner, command, s, a),
        command is Send,
    ensures
        (command->Send_recipient.bot || command->Send_recipient.system) ==> s.phase is Closing
            && posts(a, "user is a bot or a system user"@),
        !(command->Send_recipient.bot || command->Send_recipient.system) ==> s.phase is Introduced
            && posts(
            a,
            command->Send_recipient.name@ + "'s account was created at "@
                + command->Send_recipient.created_at@,
        ),
{
}

/// Every outside call a step asks for is about the owner who typed the
/// command and uses what was typed with it: its secret, its mnemonic, its
/// recipient's id and its amount.
pub proof fn law_actions_use_the_command_inputs(s: Session, e: Event, s2: Session, a: Action)
    requires
        next(s, e, s2, a),
    ensures
        s2.owner == s.owner,
        s2.command == s.command,
        match a {
            Action::CheckOpened { owner } => owner == s.owner,
            Action::CheckStored { owner } => owner == s.owner,
            Action::GetOpenedWallet { owner } => owner == s.owner,
            Action::RemoveOpenedWallet { owner } => owner == s.owner,
            Action::EraseStoredWallet { owner } => owner == s.owner && s.command is Destroy,
            Action::CreateWallet { owner, secret } => owner == s.owner && s.command == (
            Command::Create { secret }),
            Action::OpenWallet { owner, secret } => owner == s.owner && s.command == (
            Command::Open { secret }),
            Action::CheckMnemonic { .. } => false,
            Action::RestoreWallet { owner, secret } => owner == s.owner && s.command is Restore
                && secret == s.command->Restore_secret,
            Action::FindRecipientWallet { recipient } => s.command is Send && recipient
                == s.command->Send_recipient.id,
            Action::FindTransitionWallet { sender, recipient } => s.command is Send && sender
                == s.owner && recipient == s.command->Send_recipient.id,
            Action::CreateTransitionWallet { sender, recipient } => s.command is Send && sender
                == s.owner && recipient == s.command->Send_recipient.id,
            Action::ParseAmount { amount } => s.command is Send && amount
                == s.command->Send_amount,
            Action::SendTransaction {
                owner,
                secret,
                priority_fee_sompi,
                payload,
                payment_secret,
                ..
            } => owner == s.owner && s.command is Send && secret == s.command->Send_secret
                && priority_fee_sompi == 0 && payload is None && payment_secret is None,
            _ => true,
        },
{
}

/// Once it is known whether the owner has a wallet (an opened one, or, when
/// none is opened, one in the store), `create` creates one only if there is
/// none, `status` reports both facts, `debug` lists the accounts, `destroy`
/// asks for confirmation only if there is one, and `send` goes on only with
/// an opened wallet. When no wallet is opened, the store is asked next.
pub proof fn law_wallet_existence_decides(s: Session, e: Event, s2: Session, a: Action)
    requires
        consistent(s),
        next(s, e, s2, a),
        s.phase is AwaitOpened || s.phase is AwaitStored,
        s.command is Create || s.command is Status || s.command is Debug || s.command is Destroy
            || s.command is Send,
    ensures
        s.phase is AwaitOpened && e == Event::Opened(false) ==> a == (Action::CheckStored {
            owner: s.owner,
        }) && s2.opened == Some(false),
        (s.phase is AwaitOpened && e == Event::Opened(true)) || (s.phase is AwaitStored
            && e is Stored) ==> {
            let opened = s2.opened == Some(true);
            let has_wallet = s2.opened == Some(true) || s2.stored == Some(true);
            &&& (s.phase is AwaitStored ==> s2.opened == Some(false) && s2.stored == Some(
                e->Stored_0,
            ))
            &&& match s.command {
                Command::Create { secret } => if has_wallet {
                    posts(a, "a discord wallet already exists"@)
                } else {
                    a == (Action::CreateWallet { owner: s.owner, secret })
                },
                Command::Status => posts(
                    a,
                    "is opened: "@ + shown(opened) + "\nis_initiated"@ + shown(has_wallet),
                ),
                Command::Debug => a is ListAccounts,
                Command::Destroy => if has_wallet {
                    a is AskConfirmation
                } else {
                    posts(a, "the wallet is not initiated, cannot destroy a non existing thing"@)
                },
                Command::Send { .. } => if !has_wallet {
                    posts(a, "wallet not initiated yet"@)
                } else if !opened {
                    posts(a, "wallet not opened"@)
                } else {
                    a == (Action::GetOpenedWallet { owner: s.owner })
                },
                _ => true,
            }
        },
        !(e is Opened || e is Stored) ==> failed(s, s2, a),
{
}

/// `create` answers the new wallet's mnemonic phrase and receive address.
pub proof fn law_create_answers_phrase_and_address(s: Session, e: Event, s2: Session, a: Action)
    requires
        next(s, e, s2, a),
        s.command is Create,
        s.phase is AwaitCreated,
    ensures
        match e {
            Event::Created { phrase, address } => posts(a, phrase@ + "\n"@ + address@)
                && s2.phase is Closing,
            _ => failed(s, s2, a),
        },
{
}

/// `open` answers the address of the wallet that is already opened, or opens
/// the stored one with the typed secret and answers its address, or says
/// that the secret is wrong.
pub proof fn law_open_steps(s: Session, e: Event, s2: Session, a: Action)
    requires
        next(s, e, s2, a),
        s.command is Open,
    ensures
        s.phase is AwaitOpenedWallet ==> match e {
            Event::OpenedWallet(found) => match found {
                Some(address) => posts(a, address@) && s2.phase is Closing,
                None => a == (Action::OpenWallet {
                    owner: s.owner,
                    secret: s.command->Open_secret,
                }) && s2.phase is AwaitOpen,
            },
            _ => failed(s, s2, a),
        },
        s.phase is AwaitOpen ==> match e {
            Event::WalletReady { address } => posts(a, address@) && s2.phase is Closing,
            Event::WrongSecret => posts_error(
                a,
                "Error while opening the wallet"@,
                "Secret is wrong"@,
            ) && s2.phase is Closing,
            _ => failed(s, s2, a),
        },
{
}

/// `close` takes an opened wallet out and closes it, and in every case ends
/// by saying "wallet closed".
pub proof fn law_close_steps(s: Session, e: Event, s2: Session, a: Action)
    requires
        next(s, e, s2, a),
        s.command is Close,
    ensures
        s.phase is AwaitOpened ==> match e {
            Event::Opened(b) => if b {
                a == (Action::RemoveOpenedWallet { owner: s.owner }) && s2.phase is AwaitRemoved
            } else {
                posts(a, "wallet closed"@) && s2.phase is Closing
            },
            _ => failed(s, s2, a),
        },
        s.phase is AwaitRemoved ==> match e {
            Event::Removed(b) => if b {
                a is CloseWallet && s2.phase is AwaitClosed
            } else {
                posts(a, "wallet closed"@) && s2.phase is Closing
            },
            _ => failed(s, s2, a),
        },
        s.phase is AwaitClosed ==> match e {
            Event::Closed => posts(a, "wallet closed"@) && s2.phase is Closing,
            _ => failed(s, s2, a),
        },
{
}

/// `debug` answers the status of the owner's wallet (opened; initiated,
/// that is opened or stored) followed by the account descriptors.
pub proof fn law_debug_answers_status_and_accounts(
    s: Session,
    e: Event,
    s2: Session,
    a: Action,
)
    requires
        next(s, e, s2, a),
        s.command is Debug,
        s.phase is AwaitAccounts,
    ensures
        match e {
            Event::Accounts { text } => posts(
                a,
                "is opened: "@ + shown(s.opened == Some(true)) + "\nis_initiated"@ + shown(
                    s.opened == Some(true) || s.stored == Some(true),
                ) + "\n"@ + text@,
            ) && s2.phase is Closing,
            _ => failed(s, s2, a),
        },
{
}

/// `destroy` goes on only if the user typed exactly "destroy": it then takes
/// out and closes an opened wallet, erases the stored one, and only then says
/// "destroy ok". Any other answer, or none, gives "destroy aborted" and
/// touches nothing.
pub proof fn law_destroy_steps(s: Session, e: Event, s2: Session, a: Action)
    requires
        next(s, e, s2, a),
        s.command is Destroy,
    ensures
        s.phase is AwaitConfirmation ==> match e {
            Event::Confirmation(answer) => if answer is Some && answer->0@ == "destroy"@ {
                s2.confirmed && (s.opened == Some(true) ==> a == (Action::RemoveOpenedWallet {
                    owner: s.owner,
                })) && (s.opened != Some(true) ==> a == (Action::EraseStoredWallet {
                    owner: s.owner,
                }))
            } else {
                posts(a, "destroy aborted"@) && s2.phase is Closing && !s2.confirmed
                    == !s.confirmed
            },
            _ => failed(s, s2, a),
        },
        s.phase is AwaitRemoved ==> match e {
            Event::Removed(b) => if b {
                a is CloseWallet
            } else {
                a == (Action::EraseStoredWallet { owner: s.owner })
            },
            _ => failed(s, s2, a),
        },
        s.phase is AwaitClosed ==> match e {
            Event::Closed => a == (Action::EraseStoredWallet { owner: s.owner }),
            _ => failed(s, s2, a),
        },
        s.phase is AwaitErased ==> match e {
            Event::Erased => posts(a, "destroy ok"@) && s2.phase is Closing,
            _ => failed(s, s2, a),
        },
{
}

/// `restore` restores the wallet under the typed secret only if the mnemonic
/// phrase is valid, and answers the restored wallet's address.
pub proof fn law_restore_steps(s: Session, e: Event, s2: Session, a: Action)
    requires
        next(s, e, s2, a),
        s.command is Restore,
    ensures
        s.phase is AwaitMnemonic ==> match e {
            Event::MnemonicChecked(valid) => if valid {
                a == (Action::RestoreWallet { owner: s.owner, secret: s.command->Restore_secret })
            } else {
                posts_error(a, "Error while restoring the wallet"@, "Mnemonic is not valid"@)
                    && s2.phase is Closing
            },
            _ => failed(s, s2, a),
        },
        s.phase is AwaitRestored ==> match e {
            Event::Restored { address } => posts(a, address@) && s2.phase is Closing,
            _ => failed(s, s2, a),
        },
{
}

/// `send` pays the recipient's own wallet if there is one, else the
/// transition wallet of the pair (found, or created when there is none); the
/// amount parsed is always the one typed, and the transfer goes to the
/// address so found, for the parsed amount.
pub proof fn law_send_steps(s: Session, e: Event, s2: Session, a: Action)
    requires
        next(s, e, s2, a),
        s.command is Send,
    ensures
        s.phase is Introduced ==> match e {
            Event::Replied => a == (Action::CheckOpened { owner: s.owner }),
            _ => failed(s, s2, a),
        },
        s.phase is AwaitOpenedWallet ==> match e {
            Event::OpenedWallet(found) => if found is Some {
                a == (Action::FindRecipientWallet { recipient: s.command->Send_recipient.id })
            } else {
                posts(a, "unexpected error: wallet not opened"@) && s2.phase is Closing
            },
            _ => failed(s, s2, a),
        },
        s.phase is AwaitRecipient ==> match e {
            Event::RecipientFound { address } => a == (Action::ParseAmount {
                amount: s.command->Send_amount,
            }) && s2.phase == (Phase::AwaitAmount { address }),
            Event::RecipientNotFound => a == (Action::FindTransitionWallet {
                sender: s.owner,
                recipient: s.command->Send_recipient.id,
            }),
            Event::RecipientLookupFailed { reason } => posts(a, "Error: "@ + reason@)
                && s2.phase is Closing,
            _ => failed(s, s2, a),
        },
        s.phase is AwaitTransition ==> match e {
            Event::TransitionFound(found) => match found {
                Some(address) => a == (Action::ParseAmount { amount: s.command->Send_amount })
                    && s2.phase == (Phase::AwaitAmount { address }),
                None => a == (Action::CreateTransitionWallet {
                    sender: s.owner,
                    recipient: s.command->Send_recipient.id,
                }),
            },
            _ => failed(s, s2, a),
        },
        s.phase is AwaitTransitionCreated ==> match e {
            Event::TransitionCreated { address } => a == (Action::ParseAmount {
                amount: s.command->Send_amount,
            }) && s2.phase == (Phase::AwaitAmount { address }),
            _ => failed(s, s2, a),
        },
        s.phase is AwaitAmount ==> match e {
            Event::Amount(sompi) => a == (Action::SendTransaction {
                owner: s.owner,
                address: s.phase->AwaitAmount_address,
                sompi,
                secret: s.command->Send_secret,
                priority_fee_sompi: 0,
                payload: None,
                payment_secret: None,
            }),
            _ => failed(s, s2, a),
        },
        s.phase is AwaitTransaction ==> match e {
            Event::TransactionSent { summary, hashes } => posts(a, summary@ + " "@ + hashes@)
                && s2.phase is Closing,
            _ => failed(s, s2, a),
        },
{
}

/// `close`, `status`, `debug` and `destroy` first ask whether the owner's
/// wallet is opened.
pub proof fn law_wallet_commands_first_ask_opened(
    owner: String,
    command: Command,
    s: Session,
    a: Action,
)
    requires
        starts(owner, command, s, a),
        command is Close || command is Status || command is Debug || command is Destroy,
    ensures
        a == (Action::CheckOpened { owner }),
        s.phase is AwaitOpened,
        s.opened is None,
        s.stored is None,
        !s.confirmed,
{
}

/// Once its last reply is posted, a command succeeds if the reply went out
/// and fails otherwise; a finished command stays finished.
pub proof fn law_last_reply_ends_the_command(s: Session, e: Event, s2: Session, a: Action)
    requires
        next(s, e, s2, a),
    ensures
        s.phase is Closing ==> match e {
            Event::Replied => a is Finish && s2.phase is Done,
            _ => failed(s, s2, a),
        },
        s.phase is Done ==> a is Finish && s2 == s,
        s.phase is Aborted ==> a is Abort && s2 == s,
{
}

/// The words the bot stops with name the missing environment variable.
pub proof fn law_settings_message_names_the_variable(e: SettingsError)
    ensures
        match e {
            SettingsError::MissingDiscordToken => e.text() == "DISCORD_TOKEN"@
                + " environment variable is missing."@,
            SettingsError::MissingNetwork => e.text() == "SPECTRE_NETWORK"@
                + " environment variable is missing"@,
            SettingsError::MissingWalletDataPath => e.text() == "WALLET_DATA_PATH"@
                + " environment variable is missing"@,
        },
{
    reveal_strlit("DISCORD_TOKEN");
    reveal_strlit("SPECTRE_NETWORK");
    reveal_strlit("WALLET_DATA_PATH");
    reveal_strlit(" environment variable is missing.");
    reveal_strlit(" environment variable is missing");
    reveal_strlit("DISCORD_TOKEN environment variable is missing.");
    reveal_strlit("SPECTRE_NETWORK environment variable is missing");
    reveal_strlit("WALLET_DATA_PATH environment variable is missing");
    match e {
        SettingsError::MissingDiscordToken => {
            assert(e.text() =~= "DISCORD_TOKEN"@ + " environment variable is missing."@);
        },
        SettingsError::MissingNetwork => {
            assert(e.text() =~= "SPECTRE_NETWORK"@ + " environment variable is missing"@);
        },
        SettingsError::MissingWalletDataPath => {
            assert(e.text() =~= "WALLET_DATA_PATH"@ + " environment variable is missing"@);
        },
    }
}

/// `{}` prints `true` and `false` as their names.
pub proof fn law_booleans_print_their_names(b: bool)
    ensures
        crate::text::bool_text(b) == shown(b),
        crate::text::status_text(b, true) == "is opened: "@ + shown(b) + "\nis_initiated"@
            + "true"@,
{
}

} // verus!
