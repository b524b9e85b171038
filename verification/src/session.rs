//! One session of the chat view, as a machine that is driven from outside.
//!
//! Whoever owns the connection and the screen feeds [`Chat::update`] one
//! event at a time and carries out the [`Reaction`] that comes back: draw the
//! screen again, send a frame, empty the input box, report a frame that was
//! dropped. [`Chat::view`] lays out what the screen is to show. Neither
//! waits, sends or draws anything itself.

use vstd::prelude::*;
use vstd::string::*;
use crate::codec::{decoded, encode, encoded, DecodeError, MessageDataView, OperationView};
use crate::room::{
    build_outgoing_message, build_registration, copy_members, is_image, reception, shows_image,
    Chat, RoomState, UserProfile, UserProfileView,
};
use crate::text::blank;

verus! {

/// An event of the session.
#[derive(Debug, Clone, PartialEq, Eq)]
pub enum Msg {
    /// A frame arrived from the room.
    HandleMsg(String),
    /// The user asked for the text in the input box to be sent.
    SubmitMessage,
    /// Something happened that calls for nothing.
    NoOp,
}

/// A [`Msg`] as mathematics sees it.
pub enum MsgView {
    HandleMsg(Seq<char>),
    SubmitMessage,
    NoOp,
}

impl View for Msg {
    type V = MsgView;

    open spec fn view(&self) -> MsgView {
        match *self {
            Msg::HandleMsg(frame) => MsgView::HandleMsg(frame@),
            Msg::SubmitMessage => MsgView::SubmitMessage,
            Msg::NoOp => MsgView::NoOp,
        }
    }
}

/// What the owner of the session is to do after an event.
#[derive(Debug, Clone, PartialEq, Eq)]
pub struct Reaction {
    /// Draw the screen again.
    pub redraw: bool,
    /// Send this frame to the room.
    pub outgoing: Option<String>,
    /// Empty the input box.
    pub clear_input: bool,
    /// Report that the frame just received was dropped, and why.
    pub dropped: Option<DecodeError>,
}

/// A [`Reaction`] as mathematics sees it.
pub struct ReactionView {
    pub redraw: bool,
    pub outgoing: Option<Seq<char>>,
    pub clear_input: bool,
    pub dropped: Option<DecodeError>,
}

impl View for Reaction {
    type V = ReactionView;

    open spec fn view(&self) -> ReactionView {
        ReactionView {
            redraw: self.redraw,
            outgoing: self.outgoing.deep_view(),
            clear_input: self.clear_input,
            dropped: self.dropped,
        }
    }
}

impl ReactionView {
    /// The reaction that asks for nothing.
    pub open spec fn quiet() -> ReactionView {
        ReactionView { redraw: false, outgoing: None, clear_input: false, dropped: None }
    }
}

/// The frame to send for a text that the user submitted: none for a blank
/// text, else the encoding of a chat message with that body and no sender.
pub open spec fn submission(text: Seq<char>) -> Option<Seq<char>> {
    if blank(text) {
        None
    } else {
        Some(encoded(OperationView::ChatMessage { sender: Seq::empty(), body: text }))
    }
}

/// The reaction to an event. `input` is what the input box holds, `None`
/// where there is no input box to read.
///
/// * A frame: draw again if it decoded to a roster snapshot or a chat
///   message; report it if it is malformed; do nothing if it is a
///   registration or carries a tag that names no kind of frame.
/// * A submission: send the text unless it is blank, and empty the box
///   either way. Without a box nothing happens.
/// * Nothing: nothing.
pub open spec fn reaction_to(msg: MsgView, input: Option<Seq<char>>) -> ReactionView {
    match msg {
        MsgView::HandleMsg(frame) => match reception(frame) {
            Ok(redraw) => ReactionView {
                redraw,
                outgoing: None,
                clear_input: false,
                dropped: None,
            },
            Err(error) => ReactionView {
                redraw: false,
                outgoing: None,
                clear_input: false,
                dropped: Some(error),
            },
        },
        MsgView::SubmitMessage => match input {
            Some(text) => ReactionView {
                redraw: false,
                outgoing: submission(text),
                clear_input: true,
                dropped: None,
            },
            None => ReactionView::quiet(),
        },
        MsgView::NoOp => ReactionView::quiet(),
    }
}

/// The state after an event: only a frame that decodes changes it.
pub open spec fn state_after(state: RoomState, msg: MsgView) -> RoomState {
    match msg {
        MsgView::HandleMsg(frame) => state.received(frame),
        _ => state,
    }
}

/// One row of the message pane.
#[derive(Debug, Clone, PartialEq, Eq)]
pub struct Row {
    /// The picture to show beside the message.
    pub avatar: String,
    /// Who sent it.
    pub from: String,
    /// What was sent.
    pub message: String,
    /// Whether `message` is the address of an image to show, not a text to
    /// print.
    pub is_image: bool,
}

/// A [`Row`] as mathematics sees it.
pub struct RowView {
    pub avatar: Seq<char>,
    pub from: Seq<char>,
    pub message: Seq<char>,
    pub is_image: bool,
}

impl View for Row {
    type V = RowView;

    open spec fn view(&self) -> RowView {
        RowView {
            avatar: self.avatar@,
            from: self.from@,
            message: self.message@,
            is_image: self.is_image,
        }
    }
}

impl DeepView for Row {
    type V = RowView;

    open spec fn deep_view(&self) -> RowView {
        self.view()
    }
}

/// What the screen shows: the members in the side bar and the messages in
/// the pane.
#[derive(Debug, Clone, PartialEq, Eq)]
pub struct Page {
    pub users: Vec<UserProfile>,
    pub rows: Vec<Row>,
}

/// A [`Page`] as mathematics sees it.
pub struct PageView {
    pub users: Seq<UserProfileView>,
    pub rows: Seq<RowView>,
}

impl View for Page {
    type V = PageView;

    open spec fn view(&self) -> PageView {
        PageView { users: self.users.deep_view(), rows: self.rows.deep_view() }
    }
}

/// The row for one entry of the log, in a given state: the sender's picture
/// is looked up on the roster as it is now, not as it was when the message
/// came.
pub open spec fn row_of(state: RoomState, entry: MessageDataView) -> RowView {
    RowView {
        avatar: state.avatar_for(entry.from),
        from: entry.from,
        message: entry.message,
        is_image: shows_image(entry.message),
    }
}

/// The page for a state: every member, and a row for every message, both in
/// order.
pub open spec fn page_of(state: RoomState) -> PageView {
    PageView {
        users: state.roster,
        rows: Seq::new(state.log.len(), |i: int| row_of(state, state.log[i])),
    }
}

/// Prepares the frame to send for a text that the user submitted, if any is
/// to be sent.
pub fn frame_for_submission(text: &str) -> (frame: Option<String>)
    ensures
        frame.deep_view() == submission(text@),
{
    match build_outgoing_message(text) {
        Some(operation) => Some(encode(&operation)),
        None => None,
    }
}

impl Chat {
    /// Opens a session for `username`: an empty room, and the frame that
    /// registers the user with the room, to be sent before anything else.
    pub fn create(username: String) -> (created: (Chat, String))
        ensures
            created.0.state() == RoomState::empty(),
            created.1@ == encoded(OperationView::Registration { name: username@ }),
    {
        let registration = build_registration(username);
        (Chat::new(), encode(&registration))
    }

    /// Handles one event and says what is to be done about it.
    ///
    /// `input` is what the input box holds at this moment, `None` where
    /// there is no box; it is read only for [`Msg::SubmitMessage`].
    pub fn update(&mut self, msg: Msg, input: Option<&str>) -> (reaction: Reaction)
        ensures
            final(self).state() == state_after(old(self).state(), msg@),
            reaction@ == reaction_to(msg@, input.deep_view()),
    {
        match msg {
            Msg::HandleMsg(frame) => match self.receive(frame.as_str()) {
                Ok(redraw) => Reaction { redraw, outgoing: None, clear_input: false, dropped: None },
                Err(error) => Reaction {
                    redraw: false,
                    outgoing: None,
                    clear_input: false,
                    dropped: Some(error),
                },
            },
            Msg::SubmitMessage => match input {
                Some(text) => Reaction {
                    redraw: false,
                    outgoing: frame_for_submission(text),
                    clear_input: true,
                    dropped: None,
                },
                None => Reaction {
                    redraw: false,
                    outgoing: None,
                    clear_input: false,
                    dropped: None,
                },
            },
            Msg::NoOp => Reaction {
                redraw: false,
                outgoing: None,
                clear_input: false,
                dropped: None,
            },
        }
    }

    /// Lays out what the screen is to show.
    pub fn view(&self) -> (page: Page)
        ensures
            page@ == page_of(self.state()),
    {
        let users = copy_members(self.users());
        let log = self.messages();
        let mut rows: Vec<Row> = Vec::new();
        let mut i: usize = 0;
        while i < log.len()
            invariant
                i <= log.len(),
                rows.len() == i,
                log.deep_view() == self.state().log,
                forall|k: int|
                    0 <= k < i ==> #[trigger] rows@[k]@ == row_of(self.state(), log@[k]@),
            decreases log.len() - i,
        {
            let entry = &log[i];
            rows.push(
                Row {
                    avatar: self.resolve_avatar(entry.from.as_str()),
                    from: entry.from.clone(),
                    message: entry.message.clone(),
                    is_image: is_image(entry.message.as_str()),
                },
            );
            i += 1;
        }
        assert(rows.deep_view() =~= page_of(self.state()).rows);
        Page { users, rows }
    }
}

/// A blank submission sends no frame and changes nothing; the box is
/// emptied all the same.
pub proof fn lemma_blank_submission_sends_nothing(state: RoomState, text: Seq<char>)
    requires
        blank(text),
    ensures
        reaction_to(MsgView::SubmitMessage, Some(text)).outgoing is None,
        reaction_to(MsgView::SubmitMessage, Some(text)).clear_input,
        state_after(state, MsgView::SubmitMessage) == state,
{
}

/// The empty text and a text of spaces are blank.
pub proof fn lemma_spaces_are_blank(n: nat)
    ensures
        blank(Seq::new(n, |i: int| ' ')),
{
}

/// A frame is reported as dropped exactly where it is malformed: its
/// decoding fails, and not for a tag that is merely unknown. Then the state
/// is as it was and the screen is not drawn again.
pub proof fn lemma_dropped_frame_changes_nothing(
    state: RoomState,
    frame: Seq<char>,
    input: Option<Seq<char>>,
)
    ensures
        reaction_to(MsgView::HandleMsg(frame), input).dropped is Some <==> (decoded(frame) is Err
            && decoded(frame) != Err::<OperationView, DecodeError>(DecodeError::UnknownTag)),
        reaction_to(MsgView::HandleMsg(frame), input).dropped is Some ==> state_after(
            state,
            MsgView::HandleMsg(frame),
        ) == state && !reaction_to(MsgView::HandleMsg(frame), input).redraw,
{
}

/// A frame with a tag that names no kind of frame is tolerated: it changes
/// nothing and asks for nothing, and it is not reported.
pub proof fn lemma_unknown_tag_is_tolerated(
    state: RoomState,
    frame: Seq<char>,
    input: Option<Seq<char>>,
)
    ensures
        decoded(frame) == Err::<OperationView, DecodeError>(DecodeError::UnknownTag) ==> state_after(
            state,
            MsgView::HandleMsg(frame),
        ) == state && reaction_to(MsgView::HandleMsg(frame), input) == ReactionView::quiet(),
{
}

/// Only a submission ever sends a frame or empties the box, and no event
/// but a frame ever changes the state.
pub proof fn lemma_effects_by_event(state: RoomState, msg: MsgView, input: Option<Seq<char>>)
    ensures
        !(msg is SubmitMessage) ==> reaction_to(msg, input).outgoing is None && !reaction_to(
            msg,
            input,
        ).clear_input,
        !(msg is HandleMsg) ==> state_after(state, msg) == state && !reaction_to(msg, input).redraw,
{
}

} // verus!
