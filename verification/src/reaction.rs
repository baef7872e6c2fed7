//! What the controller does upon an event.

use vstd::prelude::*;

use crate::app::{SignalType, SignalView};
use crate::state::{Step, Timer};

verus! {

/// Something to be passed on to another task, or to the platform.
#[derive(Debug)]
pub enum Notice {
    /// Queue a signal for the sending task.
    Signal(SignalType),
    /// Hand a new setting to the task that watches the fan's timer.
    StartTimer(Timer),
    /// Hand the address of a firmware image to the updating task.
    StartUpdate(String),
    /// Restart the controller.
    Restart,
    /// Connect to the network again.
    Reconnect,
}

/// Something to be passed on to another task, or to the platform.
pub enum NoticeView {
    Signal(SignalView),
    StartTimer(Timer),
    StartUpdate(Seq<char>),
    Restart,
    Reconnect,
}

impl View for Notice {
    type V = NoticeView;

    open spec fn view(&self) -> NoticeView {
        match self {
            Notice::Signal(s) => NoticeView::Signal(s@),
            Notice::StartTimer(t) => NoticeView::StartTimer(*t),
            Notice::StartUpdate(uri) => NoticeView::StartUpdate(uri@),
            Notice::Restart => NoticeView::Restart,
            Notice::Reconnect => NoticeView::Reconnect,
        }
    }
}

/// What notices say.
pub open spec fn notices_view(notices: Seq<Notice>) -> Seq<NoticeView> {
    Seq::new(notices.len(), |i: int| notices[i]@)
}

/// What the controller does upon an event: first the steps, while nobody else
/// may use the fan, and then the notices.
#[derive(Debug)]
pub struct Reaction {
    pub steps: Vec<Step>,
    pub notices: Vec<Notice>,
}

/// What the controller does upon an event.
#[verifier::ext_equal]
pub struct ReactionView {
    pub steps: Seq<Step>,
    pub notices: Seq<NoticeView>,
}

impl View for Reaction {
    type V = ReactionView;

    open spec fn view(&self) -> ReactionView {
        ReactionView { steps: self.steps@, notices: notices_view(self.notices@) }
    }
}

/// The notice is among the notices just once.
pub open spec fn once(notices: Seq<NoticeView>, notice: NoticeView) -> bool {
    exists|i: int|
        #![trigger notices[i]]
        0 <= i < notices.len() && notices[i] == notice && forall|j: int|
            #![trigger notices[j]]
            0 <= j < notices.len() && notices[j] == notice ==> j == i
}

/// What a notice passes on is what its view says.
pub proof fn law_notices_are_kept(notice: Notice)
    ensures
        notice matches Notice::Signal(s) ==> notice@ == NoticeView::Signal(s@),
        notice matches Notice::StartTimer(t) ==> notice@ == NoticeView::StartTimer(t),
        notice matches Notice::StartUpdate(uri) ==> notice@ == NoticeView::StartUpdate(uri@),
        notice is Restart <==> notice@ == NoticeView::Restart,
        notice is Reconnect <==> notice@ == NoticeView::Reconnect,
{
}

/// The view of a reaction holds all of its steps and all of its notices, in
/// their order.
pub proof fn law_reactions_are_kept(reaction: Reaction, i: int)
    ensures
        reaction@.steps == reaction.steps@,
        reaction@.notices == notices_view(reaction.notices@),
        reaction@.notices.len() == reaction.notices@.len(),
        0 <= i < reaction.notices@.len() ==> reaction@.notices[i] == reaction.notices@[i]@,
{
}

} // verus!
