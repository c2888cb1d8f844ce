//! A one-row bar showing a transient message that expires after a few
//! seconds. The clock is injected: callers pass the current time in
//! milliseconds.

use vstd::prelude::*;
use vstd::string::StringExecFns;

verus! {

/// How long a message stays visible, in milliseconds.
pub const DEFAULT_DURATION_MS: u64 = 5000;

/// A message and the moment it was posted.
pub struct Message {
    pub content: String,
    pub time: u64,
}

impl Default for Message {
    /// An empty message posted at the epoch.
    fn default() -> (m: Message)
        ensures
            m.content@ == Seq::<char>::empty(),
            m.time == 0,
    {
        Message { content: String::new(), time: 0 }
    }
}

impl Message {
    /// Whether the message has outlived its visible span at `now_ms`.
    pub fn is_expired(&self, now_ms: u64) -> (r: bool)
        ensures
            r == (now_ms > self.time && now_ms - self.time > DEFAULT_DURATION_MS),
    {
        let elapsed = now_ms.saturating_sub(self.time);
        elapsed > DEFAULT_DURATION_MS
    }
}

/// The bar: the current message, the dirty flag, and whether the row has
/// been cleared once since the message expired.
pub struct MessageBar {
    pub message: Message,
    pub need_redraw: bool,
    pub cleared_after_expiry: bool,
}

impl Default for MessageBar {
    /// A bar with no message.
    fn default() -> (b: MessageBar)
        ensures
            b.message.content@ == Seq::<char>::empty(),
            b.message.time == 0,
            !b.need_redraw,
            !b.cleared_after_expiry,
    {
        MessageBar {
            message: Message { content: String::new(), time: 0 },
            need_redraw: false,
            cleared_after_expiry: false,
        }
    }
}

impl MessageBar {
    /// Posts a new message at `now_ms` and asks for a repaint.
    pub fn update_message(&mut self, msg: &str, now_ms: u64)
        ensures
            final(self).message.content@ == msg@,
            final(self).message.time == now_ms,
            !final(self).cleared_after_expiry,
            final(self).need_redraw,
    {
        self.message = Message { content: String::from_str(msg), time: now_ms };
        self.cleared_after_expiry = false;
        self.need_redraw = true;
    }

    /// Sets or clears the dirty flag.
    pub fn mark_redraw(&mut self, redraw: bool)
        ensures
            (*final(self) == MessageBar { need_redraw: redraw, ..*old(self) }),
    {
        self.need_redraw = redraw;
    }

    /// Whether the row must be repainted at `now_ms`: while the message is
    /// alive, or once more right after it expires, or when marked dirty.
    pub fn needs_redraw_at(&self, now_ms: u64) -> (r: bool)
        ensures
            r == ((!self.cleared_after_expiry && !(now_ms > self.message.time && now_ms
                - self.message.time > DEFAULT_DURATION_MS)) || self.need_redraw),
    {
        (!self.cleared_after_expiry && !self.message.is_expired(now_ms)) || self.need_redraw
    }

    /// The row to paint at `now_ms`: the message while it is alive, an empty
    /// row once it has expired; the first paint after expiry records that
    /// the row was cleared.
    pub fn draw(&mut self, now_ms: u64) -> (row: String)
        ensures
            ({
                let expired = now_ms > old(self).message.time && now_ms - old(self).message.time
                    > DEFAULT_DURATION_MS;
                &&& final(self).cleared_after_expiry == (old(self).cleared_after_expiry || expired)
                &&& row@ == if expired {
                    Seq::<char>::empty()
                } else {
                    old(self).message.content@
                }
                &&& final(self).message == old(self).message
                &&& final(self).need_redraw == old(self).need_redraw
            }),
    {
        let expired = self.message.is_expired(now_ms);
        if expired {
            self.cleared_after_expiry = true;
        }
        if expired {
            String::new()
        } else {
            self.message.content.clone()
        }
    }
}

} // verus!
