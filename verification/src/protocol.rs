use vstd::prelude::*;

verus! {

/// The Discord user that a transfer is addressed to, as the bot sees it.
#[derive(Debug)]
pub struct Recipient {
    /// The user's id, printed as text.
    pub id: String,
    /// The user's name.
    pub name: String,
    /// When the account was created, printed as text.
    pub created_at: String,
    /// The account belongs to a bot.
    pub bot: bool,
    /// The account is a Discord system account.
    pub system: bool,
}

/// A slash command of the `wallet` group, with its arguments.
#[derive(Debug)]
pub enum Command {
    /// Create a fresh wallet protected by `secret`.
    Create { secret: String },
    /// Open the stored wallet with `secret`.
    Open { secret: String },
    /// Close the opened wallet.
    Close,
    /// Tell whether the wallet is opened and whether it exists.
    Status,
    /// The status, followed by the account descriptors of the local store.
    Debug,
    /// Destroy the wallet: after a confirmation, close it if it is opened and
    /// erase it from the store.
    Destroy,
    /// Restore a wallet from a mnemonic phrase under a new secret.
    Restore { mnemonic: String, secret: String },
    /// Send `amount` (in SPR, as typed) to `recipient`.
    Send { recipient: Recipient, amount: String, secret: String },
}

/// A message to the user.
#[derive(Debug)]
pub enum Reply {
    /// A plain public message.
    Say(String),
    /// An ephemeral red embed with a title and a description.
    Error { title: String, description: String },
}

/// What the bot asks the outside world to do next; the answer comes back as
/// an [`Event`].
#[derive(Debug)]
pub enum Action {
    /// Post a reply; answered by `Replied` or `Failed`.
    Reply(Reply),
    /// Is a wallet of `owner` opened in this process? Answered by `Opened`.
    CheckOpened { owner: String },
    /// Does the local store hold a wallet of `owner`? Answered by `Stored` or `Failed`.
    CheckStored { owner: String },
    /// Fetch the opened wallet of `owner`; answered by `OpenedWallet`.
    GetOpenedWallet { owner: String },
    /// Take the opened wallet of `owner` out of the opened set; answered by `Removed`.
    RemoveOpenedWallet { owner: String },
    /// Close the wallet just removed; answered by `Closed` or `Failed`.
    CloseWallet,
    /// Create a wallet for `owner` under `secret`; answered by `Created` or `Failed`.
    CreateWallet { owner: String, secret: String },
    /// Open the stored wallet of `owner` with `secret`; answered by
    /// `WalletReady`, `WrongSecret` or `Failed`.
    OpenWallet { owner: String, secret: String },
    /// Check a mnemonic phrase; answered by `MnemonicChecked`.
    CheckMnemonic { phrase: String },
    /// Restore the checked mnemonic as the wallet of `owner` under `secret`;
    /// answered by `Restored` or `Failed`.
    RestoreWallet { owner: String, secret: String },
    /// List the account descriptors of the local store; answered by `Accounts` or `Failed`.
    ListAccounts,
    /// Ask the user to type the confirmation word; answered by `Confirmation` or `Failed`.
    AskConfirmation,
    /// Erase the wallet of `owner` from the local store; answered by `Erased` or `Failed`.
    EraseStoredWallet { owner: String },
    /// Look up the owned wallet of `recipient`; answered by `RecipientFound`,
    /// `RecipientNotFound` or `RecipientLookupFailed`.
    FindRecipientWallet { recipient: String },
    /// Look up the transition wallet of the pair; answered by `TransitionFound` or `Failed`.
    FindTransitionWallet { sender: String, recipient: String },
    /// Create a transition wallet for the pair; answered by `TransitionCreated` or `Failed`.
    CreateTransitionWallet { sender: String, recipient: String },
    /// Turn an amount typed in SPR into sompi; answered by `Amount` or `Failed`.
    ParseAmount { amount: String },
    /// Send `sompi` from the opened wallet of `owner` to `address`, unlocking it
    /// with `secret`, with the priority fee `priority_fee_sompi`, the payload
    /// `payload` and the payment secret `payment_secret`; answered by
    /// `TransactionSent` or `Failed`.
    SendTransaction {
        owner: String,
        address: String,
        sompi: u64,
        secret: String,
        priority_fee_sompi: i64,
        payload: Option<Vec<u8>>,
        payment_secret: Option<String>,
    },
    /// The command is over and succeeded.
    Finish,
    /// The command is over: it fails with the error of the last outside call.
    Abort,
}

/// The outcome of an [`Action`].
#[derive(Debug)]
pub enum Event {
    /// The reply went out.
    Replied,
    /// The outside call failed with an error.
    Failed,
    /// Whether a wallet of the owner is opened.
    Opened(bool),
    /// Whether the local store holds a wallet of the owner.
    Stored(bool),
    /// The receive address of the owner's opened wallet, if one is opened.
    OpenedWallet(Option<String>),
    /// Whether an opened wallet was taken out of the opened set.
    Removed(bool),
    /// The wallet was closed.
    Closed,
    /// The wallet was erased from the store.
    Erased,
    /// The wallet was created: its mnemonic phrase and receive address.
    Created { phrase: String, address: String },
    /// The wallet was opened; its receive address.
    WalletReady { address: String },
    /// The wallet could not be decrypted with the secret.
    WrongSecret,
    /// Whether the mnemonic phrase is valid.
    MnemonicChecked(bool),
    /// The wallet was restored; its receive address.
    Restored { address: String },
    /// The account descriptors, printed as text.
    Accounts { text: String },
    /// What the user typed in the confirmation dialog, if it was submitted.
    Confirmation(Option<String>),
    /// The recipient owns a wallet; its receive address.
    RecipientFound { address: String },
    /// The recipient owns no wallet.
    RecipientNotFound,
    /// Looking up the recipient's wallet failed, for the reason given.
    RecipientLookupFailed { reason: String },
    /// The receive address of the transition wallet of the pair, if there is one.
    TransitionFound(Option<String>),
    /// A transition wallet was created; its receive address.
    TransitionCreated { address: String },
    /// The amount, in sompi.
    Amount(u64),
    /// The transaction went out: its summary and its hashes, printed as text.
    TransactionSent { summary: String, hashes: String },
}

/// Where a command stands: which answer it waits for.
#[derive(Debug)]
pub enum Phase {
    /// Waiting for `Opened`.
    AwaitOpened,
    /// Waiting for `Stored`.
    AwaitStored,
    /// Waiting for `Created`.
    AwaitCreated,
    /// Waiting for `OpenedWallet`.
    AwaitOpenedWallet,
    /// Waiting for the answer to `OpenWallet`.
    AwaitOpen,
    /// Waiting for `Removed`.
    AwaitRemoved,
    /// Waiting for `Closed`.
    AwaitClosed,
    /// Waiting for `Erased`.
    AwaitErased,
    /// Waiting for `Accounts`.
    AwaitAccounts,
    /// Waiting for `Confirmation`.
    AwaitConfirmation,
    /// Waiting for `MnemonicChecked`.
    AwaitMnemonic,
    /// Waiting for `Restored`.
    AwaitRestored,
    /// The transfer's opening message was posted.
    Introduced,
    /// Waiting for the recipient's wallet.
    AwaitRecipient,
    /// Waiting for `TransitionFound`.
    AwaitTransition,
    /// Waiting for `TransitionCreated`.
    AwaitTransitionCreated,
    /// Waiting for `Amount`; the funds go to `address`.
    AwaitAmount { address: String },
    /// Waiting for `TransactionSent`.
    AwaitTransaction,
    /// The last reply was posted; the command ends once it went out.
    Closing,
    /// The command succeeded.
    Done,
    /// The command failed.
    Aborted,
}

/// One run of a command for one user, with what it has learned so far.
#[derive(Debug)]
pub struct Session {
    /// The id of the user who typed the command, printed as text.
    pub owner: String,
    /// The command and its arguments.
    pub command: Command,
    /// Where the command stands.
    pub phase: Phase,
    /// Whether a wallet of the owner is opened, once asked.
    pub opened: Option<bool>,
    /// Whether the local store holds a wallet of the owner, once asked.
    pub stored: Option<bool>,
    /// The user typed the confirmation word.
    pub confirmed: bool,
}

/// `a` posts the public message `text`.
pub open spec fn says(a: Action, text: Seq<char>) -> bool {
    a matches Action::Reply(Reply::Say(t)) && t@ == text
}

/// `a` posts the ephemeral error embed with `title` and `description`.
pub open spec fn warns(a: Action, title: Seq<char>, description: Seq<char>) -> bool {
    a matches Action::Reply(Reply::Error { title: t, description: d }) && t@ == title && d@
        == description
}

/// The owner has a wallet: it is opened, or the store holds it.
pub open spec fn initiated(s: Session) -> bool {
    s.opened == Some(true) || s.stored == Some(true)
}

} // verus!
