use vstd::prelude::*;

use crate::flow::{confirms, next, starts};
use crate::protocol::{says, warns, Action, Command, Event, Phase, Session};
use crate::secret::short_secret;
use vstd::utf8::encode_utf8;
use crate::text::status_text;

verus! {

/// The session has ended, in success or failure.
pub open spec fn finished(s: Session) -> bool {
    s.phase is Done || s.phase is Aborted
}

/// A transfer is under way: the sender's opened wallet has been found.
pub open spec fn transferring(p: Phase) -> bool {
    ||| p is AwaitOpenedWallet
    ||| p is AwaitRecipient
    ||| p is AwaitTransition
    ||| p is AwaitTransitionCreated
    ||| p is AwaitAmount
    ||| p is AwaitTransaction
}

/// What every session that a command can reach knows of itself.
pub open spec fn consistent(s: Session) -> bool {
    &&& (s.phase is AwaitStored ==> s.opened == Some(false))
    &&& match s.command {
        Command::Create { secret } => (s.phase is AwaitOpened || s.phase is AwaitStored
            || s.phase is AwaitCreated) ==> !short_secret(secret@),
        Command::Restore { secret, .. } => (s.phase is AwaitMnemonic || s.phase is AwaitRestored)
            ==> !short_secret(secret@),
        Command::Open { secret } => (s.phase is AwaitOpenedWallet || s.phase is AwaitOpen)
            ==> !short_secret(secret@),
        Command::Close => (s.phase is AwaitRemoved || s.phase is AwaitClosed) ==> s.opened == Some(
            true,
        ),
        Command::Destroy => {
            &&& (s.phase is AwaitRemoved || s.phase is AwaitClosed) ==> s.confirmed && s.opened
                == Some(true)
            &&& s.phase is AwaitErased ==> s.confirmed
        },
        Command::Send { recipient, .. } => {
            &&& (recipient.bot || recipient.system) ==> (s.phase is Closing || finished(s))
            &&& transferring(s.phase) ==> s.opened == Some(true)
        },
        _ => true,
    }
}

/// How far a session is from its end: every step of an unfinished session
/// lowers it.
pub open spec fn rank(p: Phase) -> nat {
    match p {
        Phase::Introduced => 20,
        Phase::AwaitMnemonic => 18,
        Phase::AwaitOpened => 17,
        Phase::AwaitStored => 16,
        Phase::AwaitConfirmation => 15,
        Phase::AwaitOpenedWallet => 14,
        Phase::AwaitOpen => 13,
        Phase::AwaitRemoved => 12,
        Phase::AwaitClosed => 11,
        Phase::AwaitErased => 10,
        Phase::AwaitCreated => 10,
        Phase::AwaitAccounts => 9,
        Phase::AwaitRestored => 8,
        Phase::AwaitRecipient => 7,
        Phase::AwaitTransition => 6,
        Phase::AwaitTransitionCreated => 5,
        Phase::AwaitAmount { .. } => 4,
        Phase::AwaitTransaction => 3,
        Phase::Closing => 2,
        Phase::Done => 0,
        Phase::Aborted => 0,
    }
}

/// Every command begins in a consistent session.
pub proof fn law_start_is_consistent(owner: String, command: Command, s: Session, a: Action)
    requires
        starts(owner, command, s, a),
    ensures
        consistent(s),
        s.owner == owner,
        s.command == command,
        s.opened is None,
        s.stored is None,
        !s.confirmed,
{
}

/// Every step keeps a session consistent.
pub proof fn law_step_keeps_consistency(s: Session, e: Event, s2: Session, a: Action)
    requires
        consistent(s),
        next(s, e, s2, a),
    ensures
        consistent(s2),
{
}

/// A step never changes whose command it is, nor the command; what it learns
/// of the owner's wallet it learns from the event it is handed.
pub proof fn law_facts_come_from_events(s: Session, e: Event, s2: Session, a: Action)
    requires
        next(s, e, s2, a),
    ensures
        s2.owner == s.owner,
        s2.command == s.command,
        s2.opened == s.opened || (e matches Event::Opened(b) && s2.opened == Some(b)),
        s2.stored == s.stored || (e matches Event::Stored(b) && s2.stored == Some(b)),
        s2.confirmed == s.confirmed || (e matches Event::Confirmation(answer) && confirms(answer)
            && s2.confirmed),
{
}

/// A finished session stays as it is; any other step brings the session
/// strictly closer to its end.
pub proof fn law_every_step_progresses(s: Session, e: Event, s2: Session, a: Action)
    requires
        next(s, e, s2, a),
    ensures
        finished(s) ==> s2 == s && (a is Finish || a is Abort),
        !finished(s) ==> rank(s2.phase) < rank(s.phase),
        finished(s2) ==> a is Finish || a is Abort,
        !finished(s) ==> rank(s.phase) >= 2,
{
}

/// A command succeeds only right after its last reply went out: every
/// command that succeeds has answered the user.
pub proof fn law_success_follows_a_reply(s: Session, e: Event, s2: Session, a: Action)
    requires
        next(s, e, s2, a),
        !finished(s),
        a is Finish,
    ensures
        s.phase is Closing,
        e == Event::Replied,
        s2.phase is Done,
{
}

/// A session reaches its last phase only by posting a reply.
pub proof fn law_last_phase_posts_a_reply(s: Session, e: Event, s2: Session, a: Action)
    requires
        next(s, e, s2, a),
        s2.phase is Closing,
    ensures
        a is Reply,
{
}

/// A wallet is created only for the owner who typed `create`, with the
/// secret typed there, which has at least `MIN_SECRET_BYTES` bytes, and only once it is known that the owner has neither
/// an opened wallet nor one in the store.
pub proof fn law_create_only_without_wallet(s: Session, e: Event, s2: Session, a: Action)
    requires
        consistent(s),
        next(s, e, s2, a),
        a is CreateWallet,
    ensures
        s.command is Create,
        a->CreateWallet_owner == s.owner,
        a->CreateWallet_secret == s.command->Create_secret,
        !short_secret(a->CreateWallet_secret@),
        s2.opened == Some(false),
        s2.stored == Some(false),
{
}

/// A stored wallet is opened only with a secret of at least
/// `MIN_SECRET_BYTES` bytes, the one typed in `open`, and only when no wallet
/// of the owner is opened already.
pub proof fn law_open_needs_long_secret(s: Session, e: Event, s2: Session, a: Action)
    requires
        consistent(s),
        next(s, e, s2, a),
        a is OpenWallet,
    ensures
        s.command is Open,
        a->OpenWallet_owner == s.owner,
        a->OpenWallet_secret == s.command->Open_secret,
        !short_secret(s.command->Open_secret@),
        e == Event::OpenedWallet(None),
{
}

/// A secret shorter than `MIN_SECRET_BYTES` bytes stops `create`, `open` and
/// `restore` at once: the only thing asked for is the refusal.
pub proof fn law_short_secret_stops(owner: String, command: Command, s: Session, a: Action)
    requires
        starts(owner, command, s, a),
        match command {
            Command::Create { secret } => encode_utf8(secret@).len() < 10,
            Command::Open { secret } => encode_utf8(secret@).len() < 10,
            Command::Restore { secret, .. } => encode_utf8(secret@).len() < 10,
            _ => false,
        },
    ensures
        s.phase is Closing,
        warns(a, "Error while restoring the wallet"@, "Secret must be greater than 10"@),
{
}

/// A wallet is restored only for the owner who typed `restore`, with the
/// secret typed there, which has at least `MIN_SECRET_BYTES` bytes, and only
/// after the mnemonic phrase was found valid.
pub proof fn law_restore_needs_long_secret(s: Session, e: Event, s2: Session, a: Action)
    requires
        consistent(s),
        next(s, e, s2, a),
        a is RestoreWallet,
    ensures
        s.command is Restore,
        a->RestoreWallet_owner == s.owner,
        a->RestoreWallet_secret == s.command->Restore_secret,
        !short_secret(a->RestoreWallet_secret@),
        e == Event::MnemonicChecked(true),
{
}

/// The store is asked about the owner's wallet only when none is opened.
pub proof fn law_store_asked_only_when_not_opened(s: Session, e: Event, s2: Session, a: Action)
    requires
        next(s, e, s2, a),
        a is CheckStored,
    ensures
        e == Event::Opened(false),
        s2.opened == Some(false),
        a->CheckStored_owner == s.owner,
{
}

/// A wallet is taken out of the opened set and closed only when it is
/// opened, and by `destroy` only after the user typed the confirmation word.
pub proof fn law_wallet_closed_only_when_opened(s: Session, e: Event, s2: Session, a: Action)
    requires
        consistent(s),
        next(s, e, s2, a),
        a is RemoveOpenedWallet || a is CloseWallet,
    ensures
        s.command is Close || s.command is Destroy,
        s2.opened == Some(true),
        s.command is Destroy ==> s2.confirmed,
{
}

/// A stored wallet is erased only by `destroy`, only the owner's, and only
/// after the user typed the confirmation word.
pub proof fn law_erase_only_when_confirmed(s: Session, e: Event, s2: Session, a: Action)
    requires
        consistent(s),
        next(s, e, s2, a),
        a is EraseStoredWallet,
    ensures
        s.command is Destroy,
        a->EraseStoredWallet_owner == s.owner,
        s2.confirmed,
{
}

/// `destroy` answers "destroy ok" only once the user typed the confirmation
/// word and the store reported that the wallet was erased.
pub proof fn law_destroy_ok_only_when_confirmed(s: Session, e: Event, s2: Session, a: Action)
    requires
        consistent(s),
        next(s, e, s2, a),
        s.command is Destroy,
        says(a, "destroy ok"@),
    ensures
        s2.confirmed,
        s.phase is AwaitErased,
        e == Event::Erased,
{
    reveal_strlit("destroy ok");
    reveal_strlit("destroy aborted");
    reveal_strlit("the wallet is not initiated, cannot destroy a non existing thing");
    assert("destroy ok"@.len() != "destroy aborted"@.len());
    assert("destroy ok"@.len() != "the wallet is not initiated, cannot destroy a non existing thing"@.len());
}

/// Funds go out only in `send`, to a recipient who is neither a bot nor a
/// system account, from the sender's opened wallet, for the amount parsed from
/// what was typed, unlocked by the secret typed there, with no priority fee,
/// no payload and no payment secret.
pub proof fn law_transfer_is_guarded(s: Session, e: Event, s2: Session, a: Action)
    requires
        consistent(s),
        next(s, e, s2, a),
        a is SendTransaction,
    ensures
        s.command is Send,
        !s.command->Send_recipient.bot,
        !s.command->Send_recipient.system,
        s2.opened == Some(true),
        a->SendTransaction_owner == s.owner,
        a->SendTransaction_secret == s.command->Send_secret,
        s.phase == (Phase::AwaitAmount { address: a->SendTransaction_address }),
        e == Event::Amount(a->SendTransaction_sompi),
        a->SendTransaction_priority_fee_sompi == 0,
        a->SendTransaction_payload is None,
        a->SendTransaction_payment_secret is None,
{
}

/// A transfer to a bot or a system account asks the outside world for
/// nothing: once refused, the session only ends.
pub proof fn law_bots_are_refused(s: Session, e: Event, s2: Session, a: Action)
    requires
        consistent(s),
        next(s, e, s2, a),
        s.command is Send,
        s.command->Send_recipient.bot || s.command->Send_recipient.system,
    ensures
        a is Finish || a is Abort,
        finished(s2),
{
}


/// `sessions` and `actions` are what a command gives, from its start, when
/// it is handed `events` one after the other: `actions[0]` comes with the
/// first session, `actions[i + 1]` answers `events[i]`.
pub open spec fn is_run(
    owner: String,
    command: Command,
    events: Seq<Event>,
    sessions: Seq<Session>,
    actions: Seq<Action>,
) -> bool {
    &&& sessions.len() == events.len() + 1
    &&& actions.len() == events.len() + 1
    &&& starts(owner, command, sessions[0], actions[0])
    &&& forall|i: int|
        #![trigger events[i]]
        0 <= i < events.len() ==> next(sessions[i], events[i], sessions[i + 1], actions[i + 1])
}

/// What a run has learned it learned from an earlier event, and a run gets
/// closer to its end at every answer.
proof fn lemma_run_history(
    owner: String,
    command: Command,
    events: Seq<Event>,
    sessions: Seq<Session>,
    actions: Seq<Action>,
    n: int,
)
    requires
        is_run(owner, command, events, sessions, actions),
        0 <= n < sessions.len(),
    ensures
        consistent(sessions[n]),
        sessions[n].owner == owner,
        sessions[n].command == command,
        sessions[n].opened matches Some(b) ==> exists|i: int|
            0 <= i < n && events[i] == Event::Opened(b),
        sessions[n].stored matches Some(b) ==> exists|i: int|
            0 <= i < n && events[i] == Event::Stored(b),
        sessions[n].confirmed ==> exists|i: int|
            0 <= i < n && (#[trigger] events[i] matches Event::Confirmation(answer) && confirms(
                answer,
            )),
        !finished(sessions[n]) ==> rank(sessions[n].phase) + n <= 20,
    decreases n,
{
    if n == 0 {
        law_start_is_consistent(owner, command, sessions[0], actions[0]);
    } else {
        lemma_run_history(owner, command, events, sessions, actions, n - 1);
        let e = events[n - 1];
        law_step_keeps_consistency(sessions[n - 1], e, sessions[n], actions[n]);
        law_facts_come_from_events(sessions[n - 1], e, sessions[n], actions[n]);
        law_every_step_progresses(sessions[n - 1], e, sessions[n], actions[n]);
    }
}

/// Every run of every command is over after at most 19 answers: from then on
/// it only says that it finished or failed.
pub proof fn law_runs_finish(
    owner: String,
    command: Command,
    events: Seq<Event>,
    sessions: Seq<Session>,
    actions: Seq<Action>,
    n: int,
)
    requires
        is_run(owner, command, events, sessions, actions),
        19 <= n < sessions.len(),
    ensures
        finished(sessions[n]),
        actions[n] is Finish || actions[n] is Abort,
{
    lemma_run_history(owner, command, events, sessions, actions, n);
    let e = events[n - 1];
    law_every_step_progresses(sessions[n - 1], e, sessions[n], actions[n]);
}

/// In any run, a wallet is created only after the opened set said that the
/// owner has no opened wallet and the store said that it holds none.
pub proof fn law_run_creates_only_after_absence(
    owner: String,
    command: Command,
    events: Seq<Event>,
    sessions: Seq<Session>,
    actions: Seq<Action>,
    k: int,
)
    requires
        is_run(owner, command, events, sessions, actions),
        0 <= k < actions.len(),
        actions[k] is CreateWallet,
    ensures
        exists|i: int| 0 <= i < k && events[i] == Event::Opened(false),
        exists|j: int| 0 <= j < k && events[j] == Event::Stored(false),
{
    if k == 0 {
        assert(false);
    } else {
        let e = events[k - 1];
        lemma_run_history(owner, command, events, sessions, actions, k - 1);
        law_create_only_without_wallet(sessions[k - 1], e, sessions[k], actions[k]);
        lemma_run_history(owner, command, events, sessions, actions, k);
    }
}

/// In any run of `destroy`, the wallet is taken out, closed or erased only
/// after the user typed the confirmation word; it is taken out and closed only
/// after the opened set said that it is opened.
pub proof fn law_run_destroys_only_after_confirmation(
    owner: String,
    events: Seq<Event>,
    sessions: Seq<Session>,
    actions: Seq<Action>,
    k: int,
)
    requires
        is_run(owner, Command::Destroy, events, sessions, actions),
        0 <= k < actions.len(),
        actions[k] is RemoveOpenedWallet || actions[k] is CloseWallet
            || actions[k] is EraseStoredWallet,
    ensures
        exists|i: int|
            0 <= i < k && (#[trigger] events[i] matches Event::Confirmation(answer) && confirms(
                answer,
            )),
        !(actions[k] is EraseStoredWallet) ==> exists|i: int|
            0 <= i < k && events[i] == Event::Opened(true),
{
    if k == 0 {
        assert(false);
    } else {
        let e = events[k - 1];
        lemma_run_history(owner, Command::Destroy, events, sessions, actions, k - 1);
        if actions[k] is EraseStoredWallet {
            law_erase_only_when_confirmed(sessions[k - 1], e, sessions[k], actions[k]);
        } else {
            law_wallet_closed_only_when_opened(sessions[k - 1], e, sessions[k], actions[k]);
        }
        lemma_run_history(owner, Command::Destroy, events, sessions, actions, k);
    }
}

/// In any run, funds go out only after the opened set said that the sender's
/// wallet is opened, and never to a bot or a system account.
pub proof fn law_run_transfers_only_from_opened_wallet(
    owner: String,
    command: Command,
    events: Seq<Event>,
    sessions: Seq<Session>,
    actions: Seq<Action>,
    k: int,
)
    requires
        is_run(owner, command, events, sessions, actions),
        0 <= k < actions.len(),
        actions[k] is SendTransaction,
    ensures
        command is Send,
        !command->Send_recipient.bot,
        !command->Send_recipient.system,
        exists|i: int| 0 <= i < k && events[i] == Event::Opened(true),
{
    if k == 0 {
        assert(false);
    } else {
        let e = events[k - 1];
        lemma_run_history(owner, command, events, sessions, actions, k - 1);
        law_transfer_is_guarded(sessions[k - 1], e, sessions[k], actions[k]);
        lemma_run_history(owner, command, events, sessions, actions, k);
    }
}


/// How the owners' wallets answer an action and what the action leaves of
/// them, when every outside call succeeds. `opened` is the set of owners
/// (each by the text of its id) whose wallet is opened, `stored` the set of
/// those whose wallet the local store holds. The actions whose effect is not
/// described here (creating, opening, restoring, transfers) are left free.
pub open spec fn wallets_serve(
    opened: Set<Seq<char>>,
    stored: Set<Seq<char>>,
    a: Action,
    e: Event,
    opened2: Set<Seq<char>>,
    stored2: Set<Seq<char>>,
) -> bool {
    match a {
        Action::CheckOpened { owner } => e == Event::Opened(opened.contains(owner@)) && opened2
            == opened && stored2 == stored,
        Action::CheckStored { owner } => e == Event::Stored(stored.contains(owner@)) && opened2
            == opened && stored2 == stored,
        Action::RemoveOpenedWallet { owner } => e == Event::Removed(opened.contains(owner@))
            && opened2 == opened.remove(owner@) && stored2 == stored,
        Action::CloseWallet => e == Event::Closed && opened2 == opened && stored2 == stored,
        Action::EraseStoredWallet { owner } => e == Event::Erased && opened2 == opened && stored2
            == stored.remove(owner@),
        Action::AskConfirmation => e is Confirmation && opened2 == opened && stored2 == stored,
        Action::Reply(_) => e == Event::Replied && opened2 == opened && stored2 == stored,
        Action::Finish => opened2 == opened && stored2 == stored,
        Action::Abort => opened2 == opened && stored2 == stored,
        _ => true,
    }
}

/// `opened[i]` and `stored[i]` are the owners' wallets when `actions[i]` is
/// asked for, and every event is their answer.
pub open spec fn served_by_wallets(
    opened: Seq<Set<Seq<char>>>,
    stored: Seq<Set<Seq<char>>>,
    actions: Seq<Action>,
    events: Seq<Event>,
) -> bool {
    &&& opened.len() == actions.len()
    &&& stored.len() == actions.len()
    &&& forall|i: int|
        #![trigger events[i]]
        0 <= i < events.len() ==> wallets_serve(
            opened[i],
            stored[i],
            actions[i],
            events[i],
            opened[i + 1],
            stored[i + 1],
        )
}

/// Where a run of `close` served by the owners' wallets stands after `n`
/// answers.
proof fn lemma_close_run(
    owner: String,
    events: Seq<Event>,
    sessions: Seq<Session>,
    actions: Seq<Action>,
    opened: Seq<Set<Seq<char>>>,
    stored: Seq<Set<Seq<char>>>,
    n: int,
)
    requires
        is_run(owner, Command::Close, events, sessions, actions),
        served_by_wallets(opened, stored, actions, events),
        0 <= n < sessions.len(),
    ensures
        sessions[n].owner == owner,
        sessions[n].command == Command::Close,
        stored[n] == stored[0],
        sessions[n].phase is AwaitOpened ==> actions[n] == (Action::CheckOpened { owner }),
        sessions[n].phase is AwaitRemoved ==> actions[n] == (Action::RemoveOpenedWallet { owner }),
        sessions[n].phase is AwaitClosed ==> actions[n] is CloseWallet && !opened[n].contains(
            owner@,
        ),
        sessions[n].phase is Closing ==> says(actions[n], "wallet closed"@) && !opened[n].contains(
            owner@,
        ),
        sessions[n].phase is Done ==> actions[n] is Finish && !opened[n].contains(owner@),
        sessions[n].phase is Aborted ==> actions[n] is Abort,
        sessions[n].phase is AwaitOpened || sessions[n].phase is AwaitRemoved
            || sessions[n].phase is AwaitClosed || sessions[n].phase is Closing
            || sessions[n].phase is Done || sessions[n].phase is Aborted,
        !opened[0].contains(owner@) ==> {
            &&& opened[n] == opened[0]
            &&& !(sessions[n].phase is AwaitRemoved || sessions[n].phase is AwaitClosed)
        },
    decreases n,
{
    lemma_run_history(owner, Command::Close, events, sessions, actions, n);
    if n > 0 {
        lemma_close_run(owner, events, sessions, actions, opened, stored, n - 1);
        let e = events[n - 1];
        assert(next(sessions[n - 1], e, sessions[n], actions[n]));
        assert(wallets_serve(
            opened[n - 1],
            stored[n - 1],
            actions[n - 1],
            e,
            opened[n],
            stored[n],
        ));
    }
}

/// After a run of `close` that succeeded, the owner's wallet is not opened.
pub proof fn law_close_leaves_wallet_closed(
    owner: String,
    events: Seq<Event>,
    sessions: Seq<Session>,
    actions: Seq<Action>,
    opened: Seq<Set<Seq<char>>>,
    stored: Seq<Set<Seq<char>>>,
    n: int,
)
    requires
        is_run(owner, Command::Close, events, sessions, actions),
        served_by_wallets(opened, stored, actions, events),
        0 <= n < sessions.len(),
        sessions[n].phase is Done,
    ensures
        !opened[n].contains(owner@),
        stored[n] == stored[0],
{
    lemma_close_run(owner, events, sessions, actions, opened, stored, n);
}

/// A run of `close` for an owner whose wallet is not opened leaves the
/// owners' wallets as they are, closes nothing, and says only "wallet
/// closed".
pub proof fn law_close_without_opened_wallet_changes_nothing(
    owner: String,
    events: Seq<Event>,
    sessions: Seq<Session>,
    actions: Seq<Action>,
    opened: Seq<Set<Seq<char>>>,
    stored: Seq<Set<Seq<char>>>,
)
    requires
        is_run(owner, Command::Close, events, sessions, actions),
        served_by_wallets(opened, stored, actions, events),
        !opened[0].contains(owner@),
    ensures
        forall|n: int|
            0 <= n < sessions.len() ==> (#[trigger] opened[n]) == opened[0] && stored[n] == stored[0],
        forall|n: int|
            0 <= n < actions.len() ==> !(#[trigger] actions[n] is RemoveOpenedWallet
                || actions[n] is CloseWallet),
        forall|n: int|
            0 <= n < actions.len() && #[trigger] actions[n] is Reply ==> says(
                actions[n],
                "wallet closed"@,
            ),
{
    assert forall|n: int| 0 <= n < sessions.len() implies (#[trigger] opened[n]) == opened[0]
        && stored[n] == stored[0] by {
        lemma_close_run(owner, events, sessions, actions, opened, stored, n);
    }
    assert forall|n: int| 0 <= n < actions.len() implies !(#[trigger] actions[n] is RemoveOpenedWallet
        || actions[n] is CloseWallet) by {
        lemma_close_run(owner, events, sessions, actions, opened, stored, n);
    }
    assert forall|n: int| 0 <= n < actions.len() && #[trigger] actions[n] is Reply implies says(
        actions[n],
        "wallet closed"@,
    ) by {
        lemma_close_run(owner, events, sessions, actions, opened, stored, n);
    }
}

/// `close` is idempotent: once a run of `close` has succeeded, a second run
/// for the same owner, served by the wallets the first one left, changes
/// nothing, closes nothing and says only "wallet closed".
pub proof fn law_close_is_idempotent(
    owner: String,
    events1: Seq<Event>,
    sessions1: Seq<Session>,
    actions1: Seq<Action>,
    opened1: Seq<Set<Seq<char>>>,
    stored1: Seq<Set<Seq<char>>>,
    events2: Seq<Event>,
    sessions2: Seq<Session>,
    actions2: Seq<Action>,
    opened2: Seq<Set<Seq<char>>>,
    stored2: Seq<Set<Seq<char>>>,
)
    requires
        is_run(owner, Command::Close, events1, sessions1, actions1),
        served_by_wallets(opened1, stored1, actions1, events1),
        sessions1.last().phase is Done,
        is_run(owner, Command::Close, events2, sessions2, actions2),
        served_by_wallets(opened2, stored2, actions2, events2),
        opened2[0] == opened1.last(),
    ensures
        forall|n: int|
            0 <= n < sessions2.len() ==> (#[trigger] opened2[n]) == opened2[0] && stored2[n]
                == stored2[0],
        forall|n: int|
            0 <= n < actions2.len() ==> !(#[trigger] actions2[n] is RemoveOpenedWallet
                || actions2[n] is CloseWallet),
        forall|n: int|
            0 <= n < actions2.len() && #[trigger] actions2[n] is Reply ==> says(
                actions2[n],
                "wallet closed"@,
            ),
{
    law_close_leaves_wallet_closed(
        owner,
        events1,
        sessions1,
        actions1,
        opened1,
        stored1,
        sessions1.len() - 1,
    );
    law_close_without_opened_wallet_changes_nothing(
        owner,
        events2,
        sessions2,
        actions2,
        opened2,
        stored2,
    );
    assert forall|n: int| 0 <= n < sessions2.len() implies (#[trigger] opened2[n]) == opened2[0]
        && stored2[n] == stored2[0] by {
        assert(!opened2[0].contains(owner@));
        assert(opened2[n] == opened2[0]);
        assert(stored2[n] == stored2[0]);
    }
}


/// Where a run of `destroy` served by the owners' wallets stands after `n`
/// answers.
proof fn lemma_destroy_run(
    owner: String,
    events: Seq<Event>,
    sessions: Seq<Session>,
    actions: Seq<Action>,
    opened: Seq<Set<Seq<char>>>,
    stored: Seq<Set<Seq<char>>>,
    n: int,
)
    requires
        is_run(owner, Command::Destroy, events, sessions, actions),
        served_by_wallets(opened, stored, actions, events),
        0 <= n < sessions.len(),
    ensures
        sessions[n].owner == owner,
        sessions[n].command == Command::Destroy,
        sessions[n].phase is AwaitOpened ==> actions[n] == (Action::CheckOpened { owner }),
        sessions[n].phase is AwaitStored ==> actions[n] == (Action::CheckStored { owner })
            && !opened[n].contains(owner@),
        sessions[n].phase is AwaitConfirmation ==> actions[n] is AskConfirmation
            && sessions[n].opened is Some && (sessions[n].opened == Some(false)
            ==> !opened[n].contains(owner@)),
        (sessions[n].phase is AwaitOpened || sessions[n].phase is AwaitStored
            || sessions[n].phase is AwaitConfirmation) ==> !sessions[n].confirmed,
        sessions[n].phase is AwaitRemoved ==> actions[n] == (Action::RemoveOpenedWallet { owner }),
        sessions[n].phase is AwaitClosed ==> actions[n] is CloseWallet && !opened[n].contains(
            owner@,
        ),
        sessions[n].phase is AwaitErased ==> actions[n] == (Action::EraseStoredWallet { owner })
            && !opened[n].contains(owner@),
        sessions[n].phase is Closing ==> actions[n] is Reply && (sessions[n].confirmed
            ==> !opened[n].contains(owner@) && !stored[n].contains(owner@)),
        sessions[n].phase is Done ==> actions[n] is Finish && (sessions[n].confirmed
            ==> !opened[n].contains(owner@) && !stored[n].contains(owner@)),
        sessions[n].phase is Aborted ==> actions[n] is Abort,
        sessions[n].phase is AwaitOpened || sessions[n].phase is AwaitStored
            || sessions[n].phase is AwaitConfirmation || sessions[n].phase is AwaitRemoved
            || sessions[n].phase is AwaitClosed || sessions[n].phase is AwaitErased
            || sessions[n].phase is Closing || sessions[n].phase is Done
            || sessions[n].phase is Aborted,
    decreases n,
{
    lemma_run_history(owner, Command::Destroy, events, sessions, actions, n);
    if n > 0 {
        lemma_destroy_run(owner, events, sessions, actions, opened, stored, n - 1);
        lemma_run_history(owner, Command::Destroy, events, sessions, actions, n - 1);
        let e = events[n - 1];
        assert(next(sessions[n - 1], e, sessions[n], actions[n]));
        assert(wallets_serve(
            opened[n - 1],
            stored[n - 1],
            actions[n - 1],
            e,
            opened[n],
            stored[n],
        ));
    }
}

/// After a run of `destroy` that succeeded with the confirmation word, the
/// owner has no wallet: none opened, none in the store.
pub proof fn law_destroy_leaves_no_wallet(
    owner: String,
    events: Seq<Event>,
    sessions: Seq<Session>,
    actions: Seq<Action>,
    opened: Seq<Set<Seq<char>>>,
    stored: Seq<Set<Seq<char>>>,
    n: int,
)
    requires
        is_run(owner, Command::Destroy, events, sessions, actions),
        served_by_wallets(opened, stored, actions, events),
        0 <= n < sessions.len(),
        sessions[n].phase is Done,
        sessions[n].confirmed,
    ensures
        !opened[n].contains(owner@),
        !stored[n].contains(owner@),
{
    lemma_destroy_run(owner, events, sessions, actions, opened, stored, n);
}

/// `status` for an owner who has no wallet answers, after asking the opened
/// set and the store, that the wallet is neither opened nor initiated.
pub proof fn law_status_without_wallet(
    owner: String,
    events: Seq<Event>,
    sessions: Seq<Session>,
    actions: Seq<Action>,
    opened: Seq<Set<Seq<char>>>,
    stored: Seq<Set<Seq<char>>>,
)
    requires
        is_run(owner, Command::Status, events, sessions, actions),
        served_by_wallets(opened, stored, actions, events),
        !opened[0].contains(owner@),
        !stored[0].contains(owner@),
        2 < actions.len(),
    ensures
        actions[0] == (Action::CheckOpened { owner }),
        actions[1] == (Action::CheckStored { owner }),
        says(actions[2], status_text(false, false)),
{
    let e0 = events[0];
    let e1 = events[1];
    assert(next(sessions[0], e0, sessions[1], actions[1]));
    assert(next(sessions[1], e1, sessions[2], actions[2]));
}

/// `create` with a secret of at least `MIN_SECRET_BYTES` bytes, for an owner
/// who has no wallet, asks, after the opened set and the store, to create
/// the wallet with that secret.
pub proof fn law_create_without_wallet(
    owner: String,
    secret: String,
    events: Seq<Event>,
    sessions: Seq<Session>,
    actions: Seq<Action>,
    opened: Seq<Set<Seq<char>>>,
    stored: Seq<Set<Seq<char>>>,
)
    requires
        is_run(owner, Command::Create { secret }, events, sessions, actions),
        served_by_wallets(opened, stored, actions, events),
        !short_secret(secret@),
        !opened[0].contains(owner@),
        !stored[0].contains(owner@),
        2 < actions.len(),
    ensures
        actions[0] == (Action::CheckOpened { owner }),
        actions[1] == (Action::CheckStored { owner }),
        actions[2] == (Action::CreateWallet { owner, secret }),
{
    let e0 = events[0];
    let e1 = events[1];
    assert(next(sessions[0], e0, sessions[1], actions[1]));
    assert(next(sessions[1], e1, sessions[2], actions[2]));
}

/// After `destroy` succeeded with the confirmation word, `status` answers
/// that the owner's wallet is neither opened nor initiated.
pub proof fn law_status_after_destroy(
    owner: String,
    events1: Seq<Event>,
    sessions1: Seq<Session>,
    actions1: Seq<Action>,
    opened1: Seq<Set<Seq<char>>>,
    stored1: Seq<Set<Seq<char>>>,
    events2: Seq<Event>,
    sessions2: Seq<Session>,
    actions2: Seq<Action>,
    opened2: Seq<Set<Seq<char>>>,
    stored2: Seq<Set<Seq<char>>>,
)
    requires
        is_run(owner, Command::Destroy, events1, sessions1, actions1),
        served_by_wallets(opened1, stored1, actions1, events1),
        sessions1.last().phase is Done,
        sessions1.last().confirmed,
        is_run(owner, Command::Status, events2, sessions2, actions2),
        served_by_wallets(opened2, stored2, actions2, events2),
        opened2[0] == opened1.last(),
        stored2[0] == stored1.last(),
        2 < actions2.len(),
    ensures
        says(actions2[2], status_text(false, false)),
{
    law_destroy_leaves_no_wallet(
        owner,
        events1,
        sessions1,
        actions1,
        opened1,
        stored1,
        sessions1.len() - 1,
    );
    law_status_without_wallet(owner, events2, sessions2, actions2, opened2, stored2);
}

/// After `destroy` succeeded with the confirmation word, `create` with a
/// long enough secret asks to create a new wallet for the owner.
pub proof fn law_create_after_destroy(
    owner: String,
    secret: String,
    events1: Seq<Event>,
    sessions1: Seq<Session>,
    actions1: Seq<Action>,
    opened1: Seq<Set<Seq<char>>>,
    stored1: Seq<Set<Seq<char>>>,
    events2: Seq<Event>,
    sessions2: Seq<Session>,
    actions2: Seq<Action>,
    opened2: Seq<Set<Seq<char>>>,
    stored2: Seq<Set<Seq<char>>>,
)
    requires
        is_run(owner, Command::Destroy, events1, sessions1, actions1),
        served_by_wallets(opened1, stored1, actions1, events1),
        sessions1.last().phase is Done,
        sessions1.last().confirmed,
        is_run(owner, Command::Create { secret }, events2, sessions2, actions2),
        served_by_wallets(opened2, stored2, actions2, events2),
        !short_secret(secret@),
        opened2[0] == opened1.last(),
        stored2[0] == stored1.last(),
        2 < actions2.len(),
    ensures
        actions2[2] == (Action::CreateWallet { owner, secret }),
{
    law_destroy_leaves_no_wallet(
        owner,
        events1,
        sessions1,
        actions1,
        opened1,
        stored1,
        sessions1.len() - 1,
    );
    law_create_without_wallet(owner, secret, events2, sessions2, actions2, opened2, stored2);
}

} // verus!
