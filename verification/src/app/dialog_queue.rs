//! The requests waiting for the single message dialog: one is shown, the
//! others wait in the order they came, and each answer moves on to the next.
use crate::app::messages::{MessageDialogAction, MessageDialogRequest, MessageDialogRequestId, MessageDialogResponse};
use std::collections::VecDeque;
use vstd::prelude::*;

verus! {

struct ShownRequest {
    id: MessageDialogRequestId,
    buttons: Vec<MessageDialogAction>,
}

/// The message dialog's requests: the one shown, then those waiting.
pub struct MessageDialogQueue {
    shown: Option<ShownRequest>,
    waiting: VecDeque<MessageDialogRequest>,
}

fn copy_buttons(buttons: &Vec<MessageDialogAction>) -> (r: Vec<MessageDialogAction>)
    ensures
        r@ == buttons@,
{
    let mut r: Vec<MessageDialogAction> = Vec::new();
    let mut i: usize = 0;
    while i < buttons.len()
        invariant
            i <= buttons@.len(),
            r@ == buttons@.take(i as int),
        decreases buttons@.len() - i,
    {
        r.push(buttons[i]);
        assert(r@ =~= buttons@.take(i + 1));
        i = i + 1;
    }
    assert(buttons@.take(buttons@.len() as int) =~= buttons@);
    r
}

/// The ids of requests, in order.
pub open spec fn request_ids(requests: Seq<MessageDialogRequest>) -> Seq<MessageDialogRequestId> {
    requests.map_values(|r: MessageDialogRequest| r.id)
}

/// Whether a dialog showing `buttons` can be answered with the button at `index`.
pub open spec fn answered(buttons: Option<Seq<MessageDialogAction>>, index: i32) -> bool {
    match buttons {
        Some(b) => 0 <= index < b.len(),
        None => false,
    }
}

impl MessageDialogQueue {
    /// Nothing waits unless a request is shown.
    #[verifier::type_invariant]
    spec fn waits_behind_shown(self) -> bool {
        self.shown is None ==> self.waiting@.len() == 0
    }

    /// The ids of the requests not answered yet: the one shown first, then those
    /// waiting in the order they came.
    pub closed spec fn pending(self) -> Seq<MessageDialogRequestId> {
        match self.shown {
            Some(s) => seq![s.id] + request_ids(self.waiting@),
            None => Seq::empty(),
        }
    }

    /// The requests waiting behind the one shown, in the order they came.
    pub closed spec fn waiting_requests(self) -> Seq<MessageDialogRequest> {
        self.waiting@
    }

    /// The buttons of the request shown, if one is.
    pub closed spec fn shown_buttons(self) -> Option<Seq<MessageDialogAction>> {
        match self.shown {
            Some(s) => Some(s.buttons@),
            None => None,
        }
    }

    /// No request yet.
    pub fn new() -> (q: Self)
        ensures
            q.pending() == Seq::<MessageDialogRequestId>::empty(),
            q.waiting_requests() == Seq::<MessageDialogRequest>::empty(),
            q.shown_buttons() is None,
    {
        MessageDialogQueue { shown: None, waiting: VecDeque::new() }
    }

    /// Whether a request is shown.
    pub fn is_showing(&self) -> (r: bool)
        ensures
            r == (self.shown_buttons() is Some),
    {
        self.shown.is_some()
    }

    /// A request joins the end of the line. When nothing is shown it is shown at
    /// once and handed back to be displayed; otherwise it waits.
    pub fn enqueue(&mut self, request: MessageDialogRequest) -> (show: Option<MessageDialogRequest>)
        ensures
            final(self).pending() == old(self).pending().push(request.id),
            old(self).shown_buttons() is Some ==> show is None && final(self).shown_buttons() == old(
                self,
            ).shown_buttons() && final(self).waiting_requests() == old(self).waiting_requests().push(request),
            old(self).shown_buttons() is None ==> show == Some(request) && final(self).shown_buttons() == Some(
                request.buttons@,
            ) && final(self).waiting_requests() == Seq::<MessageDialogRequest>::empty(),
    {
        proof {
            use_type_invariant(&*self);
        }
        if self.shown.is_some() {
            let ghost before = self.waiting@;
            let mut waiting: VecDeque<MessageDialogRequest> = VecDeque::new();
            std::mem::swap(&mut waiting, &mut self.waiting);
            waiting.push_back(request);
            std::mem::swap(&mut waiting, &mut self.waiting);
            assert(request_ids(self.waiting@) =~= request_ids(before).push(request.id));
            None
        } else {
            let buttons = copy_buttons(&request.buttons);
            self.shown = Some(ShownRequest { id: request.id, buttons });
            assert(request_ids(self.waiting@) =~= Seq::<MessageDialogRequestId>::empty());
            assert(seq![request.id] + Seq::<MessageDialogRequestId>::empty() =~= Seq::<
                MessageDialogRequestId,
            >::empty().push(request.id));
            Some(request)
        }
    }

    /// Takes the answer given with the button at `index` of the request shown.
    /// Without a shown request, or for a position past its buttons, there is no
    /// answer and nothing changes. Otherwise the answer names the shown request
    /// and the button, the request leaves the line, and the next one waiting is
    /// shown and handed back to be displayed; when none waits the dialog is empty.
    pub fn respond(&mut self, index: i32) -> (r: Option<(MessageDialogResponse, Option<MessageDialogRequest>)>)
        ensures
            answered(old(self).shown_buttons(), index) ==> {
                &&& r is Some
                &&& r->Some_0.0.request_id == old(self).pending()[0]
                &&& r->Some_0.0.action == old(self).shown_buttons()->Some_0[index as int]
                &&& final(self).pending() == old(self).pending().drop_first()
                &&& (r->Some_0.1 matches Some(n) ==> n == old(self).waiting_requests()[0]
                    && final(self).shown_buttons() == Some(n.buttons@)
                    && final(self).pending()[0] == n.id
                    && final(self).waiting_requests() == old(self).waiting_requests().drop_first())
                &&& (r->Some_0.1 is None ==> old(self).waiting_requests().len() == 0
                    && final(self).shown_buttons() is None && final(self).pending()
                    == Seq::<MessageDialogRequestId>::empty()
                    && final(self).waiting_requests() == Seq::<MessageDialogRequest>::empty())
            },
            !answered(old(self).shown_buttons(), index) ==> {
                &&& r is None
                &&& final(self).pending() == old(self).pending()
                &&& final(self).waiting_requests() == old(self).waiting_requests()
                &&& final(self).shown_buttons() == old(self).shown_buttons()
            },
    {
        proof {
            use_type_invariant(&*self);
        }
        let (id, action) = match &self.shown {
            Some(shown) => {
                if index < 0 || index as usize >= shown.buttons.len() {
                    return None;
                }
                (shown.id, shown.buttons[index as usize])
            },
            None => {
                return None;
            },
        };
        let response = MessageDialogResponse { request_id: id, action };
        let ghost before = self.waiting@;
        let mut waiting: VecDeque<MessageDialogRequest> = VecDeque::new();
        std::mem::swap(&mut waiting, &mut self.waiting);
        let front = waiting.pop_front();
        std::mem::swap(&mut waiting, &mut self.waiting);
        match front {
            Some(next) => {
                let buttons = copy_buttons(&next.buttons);
                self.shown = Some(ShownRequest { id: next.id, buttons });
                assert(request_ids(before) =~= seq![next.id] + request_ids(self.waiting@));
                Some((response, Some(next)))
            },
            None => {
                self.shown = None;
                Some((response, None))
            },
        }
    }

    /// Empties the dialog: no request is shown and none waits.
    pub fn clear(&mut self)
        ensures
            final(self).pending() == Seq::<MessageDialogRequestId>::empty(),
            final(self).waiting_requests() == Seq::<MessageDialogRequest>::empty(),
            final(self).shown_buttons() is None,
    {
        *self = MessageDialogQueue { shown: None, waiting: VecDeque::new() };
    }
}

} // verus!
