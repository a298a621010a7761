use discord_bot::{Action, Command, CommandRun, Event, Phase, Recipient, Reply};

fn s(text: &str) -> String {
    text.to_string()
}

/// Starts `command` for user "42" and hands it `events`; returns every action.
fn run(command: Command, events: Vec<Event>) -> (CommandRun, Vec<Action>) {
    let (mut session, first) = CommandRun::start(s("42"), command);
    let mut actions = vec![first];
    for e in events {
        let (next, a) = session.advance(e);
        session = next;
        actions.push(a);
    }
    (session, actions)
}

fn said(a: &Action) -> &str {
    match a {
        Action::Reply(Reply::Say(t)) => t.as_str(),
        other => panic!("expected a message, got {:?}", other),
    }
}

fn warned(a: &Action) -> (&str, &str) {
    match a {
        Action::Reply(Reply::Error { title, description }) => (title.as_str(), description.as_str()),
        other => panic!("expected an error embed, got {:?}", other),
    }
}

fn human(bot: bool, system: bool) -> Recipient {
    Recipient { id: s("77"), name: s("bob"), created_at: s("2020-01-01T00:00:00Z"), bot, system }
}

fn send(bot: bool, system: bool) -> Command {
    Command::Send { recipient: human(bot, system), amount: s("1.5"), secret: s("long enough secret") }
}

// create

#[test]
fn create_fresh_wallet_replies_phrase_and_address() {
    let (session, a) = run(
        Command::Create { secret: s("0123456789") },
        vec![
            Event::Opened(false),
            Event::Stored(false),
            Event::Created { phrase: s("word word"), address: s("spectre:qabc") },
            Event::Replied,
        ],
    );
    assert!(matches!(&a[0], Action::CheckOpened { owner } if owner == "42"));
    assert!(matches!(&a[1], Action::CheckStored { owner } if owner == "42"));
    assert!(matches!(&a[2], Action::CreateWallet { owner, secret } if owner == "42" && secret == "0123456789"));
    assert_eq!(said(&a[3]), "word word\nspectre:qabc");
    assert!(matches!(a[4], Action::Finish));
    assert!(matches!(session.session().phase, Phase::Done));
}

#[test]
fn create_refuses_when_wallet_opened() {
    let (_, a) = run(Command::Create { secret: s("0123456789") }, vec![Event::Opened(true), Event::Replied]);
    assert_eq!(said(&a[1]), "a discord wallet already exists");
    assert!(matches!(a[2], Action::Finish));
}

#[test]
fn create_refuses_when_wallet_stored() {
    let (_, a) = run(
        Command::Create { secret: s("0123456789") },
        vec![Event::Opened(false), Event::Stored(true), Event::Replied],
    );
    assert_eq!(said(&a[2]), "a discord wallet already exists");
    assert!(matches!(a[3], Action::Finish));
}

#[test]
fn create_short_secret_stops() {
    let (session, a) = run(Command::Create { secret: s("short") }, vec![Event::Replied, Event::Opened(false)]);
    assert_eq!(warned(&a[0]), ("Error while restoring the wallet", "Secret must be greater than 10"));
    assert!(matches!(a[1], Action::Finish));
    assert!(matches!(a[2], Action::Finish));
    assert!(matches!(session.session().phase, Phase::Done));
    assert!(!a.iter().any(|x| matches!(x, Action::CreateWallet { .. })));
}

#[test]
fn create_fails_with_store_error() {
    let (session, a) = run(Command::Create { secret: s("0123456789") }, vec![Event::Opened(false), Event::Failed]);
    assert!(matches!(a[2], Action::Abort));
    assert!(matches!(session.session().phase, Phase::Aborted));
}

#[test]
fn create_fails_when_creation_fails() {
    let (_, a) = run(
        Command::Create { secret: s("0123456789") },
        vec![Event::Opened(false), Event::Stored(false), Event::Failed],
    );
    assert!(matches!(a[3], Action::Abort));
}

// open

#[test]
fn open_short_secret_stops() {
    let (session, a) = run(Command::Open { secret: s("123456789") }, vec![Event::Replied]);
    assert_eq!(warned(&a[0]), ("Error while restoring the wallet", "Secret must be greater than 10"));
    assert!(matches!(a[1], Action::Finish));
    assert!(matches!(session.session().phase, Phase::Done));
}

#[test]
fn open_counts_bytes_not_characters() {
    // five characters of two bytes each: ten bytes, long enough
    let (_, a) = run(Command::Open { secret: s("ééééé") }, vec![]);
    assert!(matches!(&a[0], Action::GetOpenedWallet { .. }));
    // four such characters: eight bytes, too short
    let (_, a) = run(Command::Open { secret: s("éééé") }, vec![]);
    assert!(matches!(&a[0], Action::Reply(Reply::Error { .. })));
}

#[test]
fn open_already_opened_replies_address() {
    let (_, a) = run(
        Command::Open { secret: s("0123456789") },
        vec![Event::OpenedWallet(Some(s("spectre:qxyz"))), Event::Replied],
    );
    assert!(matches!(&a[0], Action::GetOpenedWallet { owner } if owner == "42"));
    assert_eq!(said(&a[1]), "spectre:qxyz");
    assert!(matches!(a[2], Action::Finish));
}

#[test]
fn open_stored_wallet() {
    let (_, a) = run(
        Command::Open { secret: s("0123456789") },
        vec![Event::OpenedWallet(None), Event::WalletReady { address: s("spectre:q1") }, Event::Replied],
    );
    assert!(matches!(&a[1], Action::OpenWallet { owner, secret } if owner == "42" && secret == "0123456789"));
    assert_eq!(said(&a[2]), "spectre:q1");
    assert!(matches!(a[3], Action::Finish));
}

#[test]
fn open_wrong_secret_warns() {
    let (_, a) = run(
        Command::Open { secret: s("0123456789") },
        vec![Event::OpenedWallet(None), Event::WrongSecret, Event::Replied],
    );
    assert_eq!(warned(&a[2]), ("Error while opening the wallet", "Secret is wrong"));
    assert!(matches!(a[3], Action::Finish));
}

#[test]
fn open_other_error_fails() {
    let (_, a) = run(Command::Open { secret: s("0123456789") }, vec![Event::OpenedWallet(None), Event::Failed]);
    assert!(matches!(a[2], Action::Abort));
}

// close

#[test]
fn close_opened_wallet() {
    let (_, a) = run(Command::Close, vec![Event::Opened(true), Event::Removed(true), Event::Closed, Event::Replied]);
    assert!(matches!(&a[1], Action::RemoveOpenedWallet { owner } if owner == "42"));
    assert!(matches!(a[2], Action::CloseWallet));
    assert_eq!(said(&a[3]), "wallet closed");
    assert!(matches!(a[4], Action::Finish));
}

#[test]
fn close_without_opened_wallet_says_closed() {
    let (_, a) = run(Command::Close, vec![Event::Opened(false), Event::Replied]);
    assert_eq!(said(&a[1]), "wallet closed");
    assert!(matches!(a[2], Action::Finish));
}

#[test]
fn close_when_removal_finds_nothing() {
    let (_, a) = run(Command::Close, vec![Event::Opened(true), Event::Removed(false)]);
    assert_eq!(said(&a[2]), "wallet closed");
}

#[test]
fn close_failure_aborts() {
    let (_, a) = run(Command::Close, vec![Event::Opened(true), Event::Removed(true), Event::Failed]);
    assert!(matches!(a[3], Action::Abort));
}

// status and debug

#[test]
fn status_opened() {
    let (_, a) = run(Command::Status, vec![Event::Opened(true), Event::Replied]);
    assert_eq!(said(&a[1]), "is opened: true\nis_initiatedtrue");
}

#[test]
fn status_stored_only() {
    let (_, a) = run(Command::Status, vec![Event::Opened(false), Event::Stored(true)]);
    assert_eq!(said(&a[2]), "is opened: false\nis_initiatedtrue");
}

#[test]
fn status_no_wallet() {
    let (_, a) = run(Command::Status, vec![Event::Opened(false), Event::Stored(false)]);
    assert_eq!(said(&a[2]), "is opened: false\nis_initiatedfalse");
}

#[test]
fn debug_lists_accounts() {
    let (_, a) = run(
        Command::Debug,
        vec![Event::Opened(false), Event::Stored(true), Event::Accounts { text: s("[]") }, Event::Replied],
    );
    assert!(matches!(a[2], Action::ListAccounts));
    assert_eq!(said(&a[3]), "is opened: false\nis_initiatedtrue\n[]");
    assert!(matches!(a[4], Action::Finish));
}

#[test]
fn debug_store_failure_aborts() {
    let (_, a) = run(Command::Debug, vec![Event::Opened(true), Event::Failed]);
    assert!(matches!(a[1], Action::ListAccounts));
    assert!(matches!(a[2], Action::Abort));
}

// destroy

#[test]
fn destroy_without_wallet() {
    let (_, a) = run(Command::Destroy, vec![Event::Opened(false), Event::Stored(false)]);
    assert_eq!(said(&a[2]), "the wallet is not initiated, cannot destroy a non existing thing");
}

#[test]
fn destroy_confirmed_opened_wallet() {
    let (session, a) = run(
        Command::Destroy,
        vec![
            Event::Opened(true),
            Event::Confirmation(Some(s("destroy"))),
            Event::Removed(true),
            Event::Closed,
            Event::Erased,
            Event::Replied,
        ],
    );
    assert!(matches!(a[1], Action::AskConfirmation));
    assert!(matches!(&a[2], Action::RemoveOpenedWallet { owner } if owner == "42"));
    assert!(matches!(a[3], Action::CloseWallet));
    assert!(matches!(&a[4], Action::EraseStoredWallet { owner } if owner == "42"));
    assert_eq!(said(&a[5]), "destroy ok");
    assert!(matches!(a[6], Action::Finish));
    assert!(session.session().confirmed);
}

#[test]
fn destroy_confirmed_stored_wallet() {
    let (_, a) = run(
        Command::Destroy,
        vec![Event::Opened(false), Event::Stored(true), Event::Confirmation(Some(s("destroy"))), Event::Erased],
    );
    assert!(matches!(&a[3], Action::EraseStoredWallet { owner } if owner == "42"));
    assert_eq!(said(&a[4]), "destroy ok");
}

#[test]
fn destroy_when_removal_finds_nothing_still_erases() {
    let (_, a) = run(
        Command::Destroy,
        vec![Event::Opened(true), Event::Confirmation(Some(s("destroy"))), Event::Removed(false)],
    );
    assert!(matches!(&a[3], Action::EraseStoredWallet { .. }));
}

#[test]
fn destroy_fails_when_store_cannot_erase() {
    let (session, a) = run(
        Command::Destroy,
        vec![Event::Opened(false), Event::Stored(true), Event::Confirmation(Some(s("destroy"))), Event::Failed],
    );
    assert!(matches!(a[4], Action::Abort));
    assert!(matches!(session.session().phase, Phase::Aborted));
    assert!(!a.iter().any(|x| matches!(x, Action::Reply(discord_bot::Reply::Say(t)) if t == "destroy ok")));
}

#[test]
fn destroy_wrong_word_aborts() {
    let (session, a) = run(
        Command::Destroy,
        vec![Event::Opened(true), Event::Confirmation(Some(s("Destroy"))), Event::Replied],
    );
    assert_eq!(said(&a[2]), "destroy aborted");
    assert!(matches!(a[3], Action::Finish));
    assert!(!session.session().confirmed);
}

#[test]
fn destroy_dismissed_dialog_aborts() {
    let (_, a) = run(Command::Destroy, vec![Event::Opened(true), Event::Confirmation(None)]);
    assert_eq!(said(&a[2]), "destroy aborted");
}

// restore

#[test]
fn restore_valid_mnemonic() {
    let (_, a) = run(
        Command::Restore { mnemonic: s("alpha beta"), secret: s("0123456789") },
        vec![Event::MnemonicChecked(true), Event::Restored { address: s("spectre:qr") }, Event::Replied],
    );
    assert!(matches!(&a[0], Action::CheckMnemonic { phrase } if phrase == "alpha beta"));
    assert!(matches!(&a[1], Action::RestoreWallet { owner, secret } if owner == "42" && secret == "0123456789"));
    assert_eq!(said(&a[2]), "spectre:qr");
    assert!(matches!(a[3], Action::Finish));
}

#[test]
fn restore_invalid_mnemonic() {
    let (_, a) = run(
        Command::Restore { mnemonic: s("nope"), secret: s("0123456789") },
        vec![Event::MnemonicChecked(false), Event::Replied],
    );
    assert_eq!(warned(&a[1]), ("Error while restoring the wallet", "Mnemonic is not valid"));
    assert!(matches!(a[2], Action::Finish));
}

#[test]
fn restore_short_secret_stops() {
    let (session, a) = run(
        Command::Restore { mnemonic: s("alpha"), secret: s("x") },
        vec![Event::Replied, Event::MnemonicChecked(true)],
    );
    assert_eq!(warned(&a[0]), ("Error while restoring the wallet", "Secret must be greater than 10"));
    assert!(matches!(a[1], Action::Finish));
    assert!(matches!(session.session().phase, Phase::Done));
    assert!(!a.iter().any(|x| matches!(x, Action::RestoreWallet { .. } | Action::CheckMnemonic { .. })));
}

#[test]
fn restore_failure_aborts() {
    let (_, a) = run(
        Command::Restore { mnemonic: s("alpha"), secret: s("0123456789") },
        vec![Event::MnemonicChecked(true), Event::Failed],
    );
    assert!(matches!(a[2], Action::Abort));
}

// send

#[test]
fn send_refuses_bots() {
    let (session, a) = run(send(true, false), vec![Event::Replied, Event::Opened(true)]);
    assert_eq!(said(&a[0]), "user is a bot or a system user");
    assert!(matches!(a[1], Action::Finish));
    assert!(matches!(a[2], Action::Finish));
    assert!(matches!(session.session().phase, Phase::Done));
}

#[test]
fn send_refuses_system_users() {
    let (_, a) = run(send(false, true), vec![]);
    assert_eq!(said(&a[0]), "user is a bot or a system user");
}

#[test]
fn send_to_owned_wallet() {
    let (session, a) = run(
        send(false, false),
        vec![
            Event::Replied,
            Event::Opened(true),
            Event::OpenedWallet(Some(s("spectre:me"))),
            Event::RecipientFound { address: s("spectre:bob") },
            Event::Amount(150_000_000),
            Event::TransactionSent { summary: s("sent 1.5 SPR"), hashes: s("[abc]") },
            Event::Replied,
        ],
    );
    assert_eq!(said(&a[0]), "bob's account was created at 2020-01-01T00:00:00Z");
    assert!(matches!(&a[1], Action::CheckOpened { .. }));
    assert!(matches!(&a[2], Action::GetOpenedWallet { owner } if owner == "42"));
    assert!(matches!(&a[3], Action::FindRecipientWallet { recipient } if recipient == "77"));
    assert!(matches!(&a[4], Action::ParseAmount { amount } if amount == "1.5"));
    match &a[5] {
        Action::SendTransaction { owner, address, sompi, secret, priority_fee_sompi, payload, payment_secret } => {
            assert_eq!(*priority_fee_sompi, 0);
            assert_eq!(*payload, None);
            assert_eq!(*payment_secret, None);
            assert_eq!(owner, "42");
            assert_eq!(address, "spectre:bob");
            assert_eq!(*sompi, 150_000_000);
            assert_eq!(secret, "long enough secret");
        },
        other => panic!("unexpected {:?}", other),
    }
    assert_eq!(said(&a[6]), "sent 1.5 SPR [abc]");
    assert!(matches!(a[7], Action::Finish));
    assert!(matches!(session.session().phase, Phase::Done));
}

#[test]
fn send_to_existing_transition_wallet() {
    let (_, a) = run(
        send(false, false),
        vec![
            Event::Replied,
            Event::Opened(true),
            Event::OpenedWallet(Some(s("spectre:me"))),
            Event::RecipientNotFound,
            Event::TransitionFound(Some(s("spectre:t"))),
            Event::Amount(1),
        ],
    );
    assert!(matches!(&a[4], Action::FindTransitionWallet { sender, recipient } if sender == "42" && recipient == "77"));
    assert!(matches!(&a[5], Action::ParseAmount { .. }));
    assert!(matches!(&a[6], Action::SendTransaction { address, sompi: 1, .. } if address == "spectre:t"));
}

#[test]
fn send_creates_transition_wallet() {
    let (_, a) = run(
        send(false, false),
        vec![
            Event::Replied,
            Event::Opened(true),
            Event::OpenedWallet(Some(s("spectre:me"))),
            Event::RecipientNotFound,
            Event::TransitionFound(None),
            Event::TransitionCreated { address: s("spectre:new") },
            Event::Amount(5),
        ],
    );
    assert!(matches!(&a[5], Action::CreateTransitionWallet { sender, recipient } if sender == "42" && recipient == "77"));
    assert!(matches!(&a[7], Action::SendTransaction { address, .. } if address == "spectre:new"));
}

#[test]
fn send_reports_lookup_error() {
    let (_, a) = run(
        send(false, false),
        vec![
            Event::Replied,
            Event::Opened(true),
            Event::OpenedWallet(Some(s("spectre:me"))),
            Event::RecipientLookupFailed { reason: s("store offline") },
            Event::Replied,
        ],
    );
    assert_eq!(said(&a[4]), "Error: store offline");
    assert!(matches!(a[5], Action::Finish));
}

#[test]
fn send_without_wallet() {
    let (_, a) = run(send(false, false), vec![Event::Replied, Event::Opened(false), Event::Stored(false)]);
    assert_eq!(said(&a[3]), "wallet not initiated yet");
}

#[test]
fn send_with_closed_wallet() {
    let (_, a) = run(send(false, false), vec![Event::Replied, Event::Opened(false), Event::Stored(true)]);
    assert_eq!(said(&a[3]), "wallet not opened");
}

#[test]
fn send_opened_wallet_vanished() {
    let (_, a) = run(
        send(false, false),
        vec![Event::Replied, Event::Opened(true), Event::OpenedWallet(None)],
    );
    assert_eq!(said(&a[3]), "unexpected error: wallet not opened");
}

#[test]
fn send_bad_amount_aborts() {
    let (_, a) = run(
        send(false, false),
        vec![
            Event::Replied,
            Event::Opened(true),
            Event::OpenedWallet(Some(s("spectre:me"))),
            Event::RecipientFound { address: s("spectre:bob") },
            Event::Failed,
        ],
    );
    assert!(matches!(a[5], Action::Abort));
}

#[test]
fn send_intro_failure_aborts() {
    let (_, a) = run(send(false, false), vec![Event::Failed]);
    assert!(matches!(a[1], Action::Abort));
}
