//! A minimal cooperative task runtime together with small verified models of
//! classic synchronization primitives.
//!
//! The heart of the crate is the scheduler: suspendable computations are
//! wrapped in tasks, placed on a ready queue, and resumed by a runner until
//! they report completion.  A resumed computation receives a suspension token
//! with which it (or a background thread) can request its own resumption
//! later.  `excutor` holds the runner and spawner, `excutor2` the timer-based
//! leaf computation and a small combined runtime, `timer_future` the
//! notification-style delay, and `protocol` the proved state machine of the
//! wake protocol.
//!
//! The remaining modules are sequential models of lock and channel
//! primitives, each with its state word and transitions written out in
//! contracts.

use vstd::prelude::*;

mod chan;
pub mod codver;
pub mod excutor;
pub mod excutor2;
pub mod mutex;
pub mod mutex1;
pub mod mutex2;
pub mod one_shot;
pub mod one_shot1;
pub mod protocol;
pub mod rwlock;
pub mod rwlock1;
pub mod rwlock2;
pub mod spin_lock;
pub mod task;
pub mod timer_future;

verus! {

/// Editorial workflow state of a `Post`.
enum PostState {
    Draft,
    PendingReview,
    Published,
}

/// A blog post that moves through a draft / review / published workflow.
/// Its body text is visible through `content` only once it is published.
pub struct Post {
    state: PostState,
    content: String,
}

impl Post {
    /// True while the post is still being written.
    pub closed spec fn is_draft(&self) -> bool {
        self.state is Draft
    }

    /// True while the post waits for approval.
    pub closed spec fn is_pending_review(&self) -> bool {
        self.state is PendingReview
    }

    /// True once the post has been approved.
    pub closed spec fn is_published(&self) -> bool {
        self.state is Published
    }

    /// The accumulated body text, whether or not it is visible yet.
    pub closed spec fn text(&self) -> Seq<char> {
        self.content@
    }

    /// A fresh post: a draft with no text.
    pub fn new() -> (p: Post)
        ensures
            p.is_draft(),
            p.text() == Seq::<char>::empty(),
    {
        Post { state: PostState::Draft, content: String::new() }
    }

    /// Appends to the body text; the workflow state does not move.
    pub fn add_text(&mut self, text: &str)
        ensures
            final(self).text() == old(self).text() + text@,
            final(self).is_draft() == old(self).is_draft(),
            final(self).is_pending_review() == old(self).is_pending_review(),
            final(self).is_published() == old(self).is_published(),
    {
        self.content.append(text);
    }

    /// The visible text: the body once published, empty before that.
    pub fn content(&self) -> (r: &str)
        ensures
            r@ == if self.is_published() {
                self.text()
            } else {
                Seq::<char>::empty()
            },
    {
        proof {
            reveal_strlit("");
            assert(""@ =~= Seq::<char>::empty());
        }
        match self.state {
            PostState::Published => self.content.as_str(),
            _ => "",
        }
    }

    /// Hands a draft to review; in any other state nothing moves.
    pub fn request_review(&mut self)
        ensures
            final(self).text() == old(self).text(),
            final(self).is_published() == old(self).is_published(),
            final(self).is_pending_review() == !old(self).is_published(),
            !final(self).is_draft(),
    {
        match self.state {
            PostState::Draft => {
                self.state = PostState::PendingReview;
            },
            PostState::PendingReview => {},
            PostState::Published => {},
        }
    }

    /// Publishes a post under review; a draft or an already published post
    /// does not move.
    pub fn approve(&mut self)
        ensures
            final(self).text() == old(self).text(),
            final(self).is_draft() == old(self).is_draft(),
            final(self).is_published() == (old(self).is_published()
                || old(self).is_pending_review()),
            !final(self).is_pending_review(),
    {
        match self.state {
            PostState::Draft => {},
            PostState::PendingReview => {
                self.state = PostState::Published;
            },
            PostState::Published => {},
        }
    }
}

} // verus!
