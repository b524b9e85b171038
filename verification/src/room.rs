//! The state of the room and the rules that change it.
//!
//! [`Chat`] owns the roster of members who are online and the log of
//! messages. Both start empty. They change only when an [`Operation`] is
//! applied: a roster snapshot replaces the roster, a chat message is appended
//! to the log, and nothing else changes anything. The two are independent: a
//! message may name a sender who is on no roster, and then a fixed fallback
//! picture stands in for the sender's.
//!
//! [`RoomState`] is the same state as mathematics sees it, and the contracts
//! below are stated over it.

use vstd::prelude::*;
use vstd::string::*;
use crate::codec::{
    decode, decoded, DecodeError, MessageData, MessageDataView, Operation, OperationView,
};
use crate::text::{blank, ends_with, has_suffix, is_blank, same_text};

verus! {

/// Where the avatar pictures are served from.
pub open spec fn avatar_service() -> Seq<char> {
    "https://avatars.dicebear.com/api/adventurer-neutral"@
}

/// The address of the picture for a name: the service, a slash, the name as
/// it is, and `.svg`.
pub open spec fn avatar_of(name: Seq<char>) -> Seq<char> {
    avatar_service() + "/"@ + name + ".svg"@
}

/// The address of the picture that stands in for a sender who is on no
/// roster. It is the picture of the fixed name `unknown`, whoever the sender
/// is.
pub open spec fn fallback_avatar() -> Seq<char> {
    avatar_of("unknown"@)
}

/// Whether a message body is to be shown as an image: it ends in `.gif`.
pub open spec fn shows_image(body: Seq<char>) -> bool {
    ends_with(body, ".gif"@)
}

/// Derives the address of the picture for a name.
pub fn avatar_url(name: &str) -> (address: String)
    ensures
        address@ == avatar_of(name@),
{
    let mut address = String::from_str("https://avatars.dicebear.com/api/adventurer-neutral");
    address.append("/");
    address.append(name);
    address.append(".svg");
    address
}

/// Returns the address of the fallback picture.
pub fn fallback_avatar_url() -> (address: String)
    ensures
        address@ == fallback_avatar(),
{
    avatar_url("unknown")
}

/// Tells whether a message body is to be shown as an image rather than as
/// text.
pub fn is_image(body: &str) -> (answer: bool)
    ensures
        answer == shows_image(body@),
{
    has_suffix(body, ".gif")
}

impl MessageData {
    /// Tells whether this entry of the log is to be shown as an image.
    pub fn is_image(&self) -> (answer: bool)
        ensures
            answer == shows_image(self@.message),
    {
        is_image(self.message.as_str())
    }
}

/// One member of the roster.
#[derive(Debug, Clone, PartialEq, Eq)]
pub struct UserProfile {
    pub name: String,
    pub avatar: String,
}

/// A [`UserProfile`] as mathematics sees it.
pub struct UserProfileView {
    pub name: Seq<char>,
    pub avatar: Seq<char>,
}

impl View for UserProfile {
    type V = UserProfileView;

    open spec fn view(&self) -> UserProfileView {
        UserProfileView { name: self.name@, avatar: self.avatar@ }
    }
}

impl DeepView for UserProfile {
    type V = UserProfileView;

    open spec fn deep_view(&self) -> UserProfileView {
        self.view()
    }
}

/// The member that a name stands for: the name with the picture derived from
/// it.
pub open spec fn member_named(name: Seq<char>) -> UserProfileView {
    UserProfileView { name, avatar: avatar_of(name) }
}

/// The roster that a snapshot stands for: one member for each name, in the
/// order of the snapshot. A name that occurs twice is listed twice.
pub open spec fn roster_of(names: Seq<Seq<char>>) -> Seq<UserProfileView> {
    Seq::new(names.len(), |i: int| member_named(names[i]))
}

/// Whether every member's picture is the one derived from the member's
/// name.
pub open spec fn derived(roster: Seq<UserProfileView>) -> bool {
    forall|i: int| 0 <= i < roster.len() ==> #[trigger] roster[i] == member_named(roster[i].name)
}

/// Whether a member of this exact name is on the roster.
pub open spec fn has_member(roster: Seq<UserProfileView>, name: Seq<char>) -> bool {
    exists|i: int| 0 <= i < roster.len() && #[trigger] roster[i].name == name
}

/// The picture to show beside a message from `sender`: the sender's own
/// where the sender is on the roster, the fallback where not.
pub open spec fn avatar_on(roster: Seq<UserProfileView>, sender: Seq<char>) -> Seq<char> {
    if has_member(roster, sender) {
        avatar_of(sender)
    } else {
        fallback_avatar()
    }
}

/// The state of the room as mathematics sees it.
pub struct RoomState {
    /// The members who are online, in the order of the last snapshot.
    pub roster: Seq<UserProfileView>,
    /// The messages received so far, oldest first.
    pub log: Seq<MessageDataView>,
}

impl RoomState {
    /// The state of a room that nothing has happened in.
    pub open spec fn empty() -> RoomState {
        RoomState { roster: Seq::empty(), log: Seq::empty() }
    }

    /// Whether the roster is well formed. Every state that a [`Chat`] goes
    /// through is.
    pub open spec fn wf(self) -> bool {
        derived(self.roster)
    }

    /// The picture to show beside a message from `sender`.
    pub open spec fn avatar_for(self, sender: Seq<char>) -> Seq<char> {
        avatar_on(self.roster, sender)
    }

    /// The state after an operation is applied.
    pub open spec fn applied(self, operation: OperationView) -> RoomState {
        match operation {
            OperationView::RosterSnapshot { members } => RoomState {
                roster: roster_of(members),
                log: self.log,
            },
            OperationView::ChatMessage { sender, body } => RoomState {
                roster: self.roster,
                log: self.log.push(MessageDataView { from: sender, message: body }),
            },
            OperationView::Registration { name } => self,
        }
    }

    /// The state after a frame is received: the frame's operation is applied
    /// where the frame decodes, and nothing changes where it does not.
    pub open spec fn received(self, frame: Seq<char>) -> RoomState {
        match decoded(frame) {
            Ok(operation) => self.applied(operation),
            Err(_) => self,
        }
    }
}

/// Whether applying an operation calls for the screen to be drawn again. A
/// roster snapshot always does, even one that changes no name.
pub open spec fn redraws(operation: OperationView) -> bool {
    operation is RosterSnapshot || operation is ChatMessage
}

/// The operation that announces `username` to the room.
pub fn build_registration(username: String) -> (operation: Operation)
    ensures
        operation@ == (OperationView::Registration { name: username@ }),
{
    Operation::Registration { name: username }
}

/// The operation that sends `text` as a chat message, or `None` where `text`
/// is blank: empty, or white space only. The body is the text as it was
/// typed, and the sender is left empty.
pub fn build_outgoing_message(text: &str) -> (operation: Option<Operation>)
    ensures
        match operation {
            Some(operation) => !blank(text@) && operation@ == (OperationView::ChatMessage {
                sender: Seq::empty(),
                body: text@,
            }),
            None => blank(text@),
        },
{
    if is_blank(text) {
        None
    } else {
        Some(Operation::ChatMessage { sender: String::new(), body: text.to_owned() })
    }
}

/// The members who are online.
///
/// A roster is only ever built from a list of names, so the picture of every
/// member on it is the one derived from the member's name.
#[derive(Debug, PartialEq, Eq)]
pub struct Roster {
    members: Vec<UserProfile>,
}

/// Copies a list of members.
pub(crate) fn copy_members(members: &Vec<UserProfile>) -> (copy: Vec<UserProfile>)
    ensures
        copy.deep_view() == members.deep_view(),
{
    let mut copy: Vec<UserProfile> = Vec::new();
    let mut i: usize = 0;
    while i < members.len()
        invariant
            i <= members.len(),
            copy.len() == i,
            forall|k: int| 0 <= k < i ==> #[trigger] copy@[k]@ == members@[k]@,
        decreases members.len() - i,
    {
        copy.push(
            UserProfile { name: members[i].name.clone(), avatar: members[i].avatar.clone() },
        );
        i += 1;
    }
    assert(copy.deep_view() =~= members.deep_view());
    copy
}

impl Clone for Roster {
    fn clone(&self) -> (copy: Roster)
        ensures
            copy@ == self@,
    {
        proof {
            use_type_invariant(self);
        }
        Roster { members: copy_members(&self.members) }
    }
}

impl View for Roster {
    type V = Seq<UserProfileView>;

    closed spec fn view(&self) -> Seq<UserProfileView> {
        self.members.deep_view()
    }
}

impl Roster {
    #[verifier::type_invariant]
    spec fn well_formed(self) -> bool {
        derived(self@)
    }

    /// The roster with nobody on it.
    pub fn new() -> (roster: Roster)
        ensures
            roster@ == Seq::<UserProfileView>::empty(),
    {
        let roster = Roster { members: Vec::new() };
        assert(roster.members.deep_view() =~= Seq::<UserProfileView>::empty());
        roster
    }

    /// Builds the roster for a snapshot: one member for each name, in order,
    /// each with the picture derived from the name.
    pub fn from_names(names: &Vec<String>) -> (roster: Roster)
        ensures
            roster@ == roster_of(names.deep_view()),
    {
        let mut members: Vec<UserProfile> = Vec::new();
        let mut i: usize = 0;
        while i < names.len()
            invariant
                i <= names.len(),
                members.len() == i,
                forall|k: int| 0 <= k < i ==> #[trigger] members@[k]@ == member_named(names@[k]@),
            decreases names.len() - i,
        {
            let name = names[i].clone();
            let avatar = avatar_url(name.as_str());
            members.push(UserProfile { name, avatar });
            i += 1;
        }
        assert(members.deep_view() =~= roster_of(names.deep_view()));
        Roster { members }
    }

    /// The members, in the order of the snapshot.
    pub fn members(&self) -> (members: &Vec<UserProfile>)
        ensures
            members.deep_view() == self@,
            derived(self@),
    {
        proof {
            use_type_invariant(self);
        }
        &self.members
    }

    /// Finds the picture to show beside a message from `sender`: the
    /// sender's own where a member of exactly that name is on the roster, the
    /// fallback where not.
    pub fn avatar_for(&self, sender: &str) -> (address: String)
        ensures
            address@ == avatar_on(self@, sender@),
    {
        proof {
            use_type_invariant(self);
        }
        let mut i: usize = 0;
        while i < self.members.len()
            invariant
                i <= self.members.len(),
                derived(self@),
                self@ == self.members.deep_view(),
                forall|k: int| 0 <= k < i ==> #[trigger] self@[k].name != sender@,
            decreases self.members.len() - i,
        {
            if same_text(self.members[i].name.as_str(), sender) {
                assert(self@[i as int].name == sender@);
                assert(self@[i as int] == member_named(sender@));
                return self.members[i].avatar.clone();
            }
            i += 1;
        }
        fallback_avatar_url()
    }
}

/// The chat room as the client knows it.
#[derive(Debug, Clone, PartialEq, Eq)]
pub struct Chat {
    users: Roster,
    messages: Vec<MessageData>,
}

impl Chat {
    /// The state of the room as mathematics sees it.
    pub closed spec fn state(&self) -> RoomState {
        RoomState { roster: self.users@, log: self.messages.deep_view() }
    }

    /// A room that nothing has happened in.
    pub fn new() -> (chat: Chat)
        ensures
            chat.state() == RoomState::empty(),
    {
        let chat = Chat { users: Roster::new(), messages: Vec::new() };
        assert(chat.messages.deep_view() =~= Seq::<MessageDataView>::empty());
        chat
    }

    /// The roster, in the order of the last snapshot.
    pub fn users(&self) -> (users: &Vec<UserProfile>)
        ensures
            users.deep_view() == self.state().roster,
            self.state().wf(),
    {
        self.users.members()
    }

    /// The log, oldest message first.
    pub fn messages(&self) -> (messages: &Vec<MessageData>)
        ensures
            messages.deep_view() == self.state().log,
    {
        &self.messages
    }

    /// Applies an operation and tells whether the screen is to be drawn
    /// again.
    ///
    /// A roster snapshot replaces the roster, with the picture of every
    /// member derived afresh. A chat message is appended to the log. A
    /// registration changes nothing.
    pub fn apply_incoming(&mut self, operation: Operation) -> (changed: bool)
        ensures
            final(self).state() == old(self).state().applied(operation@),
            changed == redraws(operation@),
    {
        match operation {
            Operation::RosterSnapshot { members } => {
                self.users = Roster::from_names(&members);
                true
            },
            Operation::ChatMessage { sender, body } => {
                let ghost before = self.messages.deep_view();
                let entry = MessageData { from: sender, message: body };
                self.messages.push(entry);
                assert(self.messages.deep_view() =~= before.push(entry@));
                true
            },
            Operation::Registration { name } => false,
        }
    }

    /// Finds the picture to show beside a message from `sender`.
    pub fn resolve_avatar(&self, sender: &str) -> (address: String)
        ensures
            address@ == self.state().avatar_for(sender@),
    {
        self.users.avatar_for(sender)
    }

    /// Takes one frame from the room: decodes it and applies what it asks
    /// for.
    ///
    /// `Ok` carries whether the screen is to be drawn again. A well-shaped
    /// frame with a tag that names no kind of frame is tolerated: nothing
    /// changes and nothing is to be drawn, and that is no failure. A frame
    /// that is malformed is dropped: the error comes back and the state is
    /// as it was. Either way the next frame is handled as if this one had
    /// never arrived.
    pub fn receive(&mut self, frame: &str) -> (outcome: Result<bool, DecodeError>)
        ensures
            final(self).state() == old(self).state().received(frame@),
            outcome == reception(frame@),
    {
        match decode(frame) {
            Ok(operation) => Ok(self.apply_incoming(operation)),
            Err(DecodeError::UnknownTag) => Ok(false),
            Err(error) => Err(error),
        }
    }
}

/// What [`Chat::receive`] returns for a frame.
pub open spec fn reception(frame: Seq<char>) -> Result<bool, DecodeError> {
    match decoded(frame) {
        Ok(operation) => Ok(redraws(operation)),
        Err(DecodeError::UnknownTag) => Ok(false),
        Err(error) => Err(error),
    }
}

/// A room that nothing has happened in is well formed.
pub proof fn lemma_empty_is_well_formed()
    ensures
        RoomState::empty().wf(),
{
}

/// Whatever is applied to a well-formed state, the state stays well formed.
pub proof fn lemma_applied_is_well_formed(state: RoomState, operation: OperationView)
    requires
        state.wf(),
    ensures
        state.applied(operation).wf(),
{
}

/// Replacing the roster is idempotent: the same snapshot applied twice leaves
/// the state that it left the first time, members and pictures alike.
pub proof fn lemma_roster_replacement_is_idempotent(state: RoomState, members: Seq<Seq<char>>)
    ensures
        state.applied(OperationView::RosterSnapshot { members }).applied(
            OperationView::RosterSnapshot { members },
        ) == state.applied(OperationView::RosterSnapshot { members }),
{
}

/// A snapshot decides the roster alone: whatever the state was, the roster
/// afterwards lists the names of the snapshot, in its order, each with the
/// picture derived from the name.
pub proof fn lemma_roster_follows_snapshot(state: RoomState, members: Seq<Seq<char>>, i: int)
    requires
        0 <= i < members.len(),
    ensures
        state.applied(OperationView::RosterSnapshot { members }).roster.len() == members.len(),
        state.applied(OperationView::RosterSnapshot { members }).roster[i] == member_named(
            members[i],
        ),
{
}

/// The log only grows, and only at its end: after any operation the old log
/// is a prefix of the new one. Only a chat message makes it longer, by the
/// one entry that the message holds.
pub proof fn lemma_log_only_grows(state: RoomState, operation: OperationView)
    ensures
        state.log.is_prefix_of(state.applied(operation).log),
        operation matches OperationView::ChatMessage { sender, body } ==> state.applied(
            operation,
        ).log == state.log.push(MessageDataView { from: sender, message: body }),
        !(operation is ChatMessage) ==> state.applied(operation).log == state.log,
{
}

/// Roster and log do not touch each other: a chat message leaves the roster
/// as it is, and it is no error for its sender to be on no roster.
pub proof fn lemma_message_leaves_roster(state: RoomState, sender: Seq<char>, body: Seq<char>)
    ensures
        state.applied(OperationView::ChatMessage { sender, body }).roster == state.roster,
{
}

/// A sender who is on no roster gets the fallback picture, which does not
/// depend on who the sender is. This holds of every sender in a room whose
/// roster is empty, also once the sender's message is in the log.
pub proof fn lemma_unknown_sender_gets_fallback(
    state: RoomState,
    sender: Seq<char>,
    body: Seq<char>,
)
    requires
        !has_member(state.roster, sender),
    ensures
        state.avatar_for(sender) == fallback_avatar(),
        state.applied(OperationView::ChatMessage { sender, body }).avatar_for(sender)
            == fallback_avatar(),
        RoomState::empty().avatar_for(sender) == fallback_avatar(),
{
}

/// A member who is on the roster gets the picture derived from the member's
/// name, which is the one the roster holds.
pub proof fn lemma_known_sender_gets_own_picture(state: RoomState, i: int)
    requires
        state.wf(),
        0 <= i < state.roster.len(),
    ensures
        state.avatar_for(state.roster[i].name) == state.roster[i].avatar,
{
    assert(has_member(state.roster, state.roster[i].name));
}

/// A frame that does not decode changes nothing, so the frame after it is
/// handled as if the first had never arrived.
pub proof fn lemma_rejected_frame_changes_nothing(
    state: RoomState,
    frame: Seq<char>,
    next: Seq<char>,
)
    ensures
        decoded(frame) is Err ==> state.received(frame) == state,
        decoded(frame) is Err ==> state.received(frame).received(next) == state.received(next),
{
}

/// A body made of any text followed by `.gif` is shown as an image, and a
/// body shorter than four characters never is.
pub proof fn lemma_gif_is_shown_as_image(stem: Seq<char>, body: Seq<char>)
    ensures
        shows_image(stem + ".gif"@),
        body.len() < 4 ==> !shows_image(body),
{
    reveal_strlit(".gif");
    let whole = stem + ".gif"@;
    assert(whole.subrange(whole.len() - 4, whole.len() as int) =~= ".gif"@);
}

} // verus!
