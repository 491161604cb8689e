//! A passive pop-up notification.
//!
//! A [`Notification`] owns the opaque handle the subsystem returned when
//! the notification was created, and is scoped to the [`Context`] that
//! created it: once that context is destroyed, every operation on the
//! notification is rejected with a typed error instead of reaching a
//! torn-down subsystem.
//!
//! [`Context`]: crate::context::Context

use vstd::prelude::*;

use crate::errors::{NotificationCreationError, NotificationShowError};
use crate::subsystem::Subsystem;

verus! {

use crate::text::{chars_have_nul, is_first_nul, opt_has_nul, opt_view, texts_ok};
use vstd::string::StringSliceAdditionalSpecFns;

/// A passive pop-up notification.
pub struct Notification {
    /// The opaque handle the subsystem returned for this notification.
    pub handle: u64,
}

impl Notification {
    /// Tells the notification server to display the notification on the
    /// screen.
    ///
    /// Succeeds exactly when the subsystem is initialized, this
    /// notification's record is still live, and the subsystem reports no
    /// error; showing is idempotent, so an already-shown notification
    /// can be shown again.  On failure the subsystem's message is
    /// surfaced verbatim, and nothing is rendered.
    pub fn show(&self, sys: &mut Subsystem) -> (r: Result<(), NotificationShowError>)
        requires
            old(sys)@.wf(),
        ensures
            final(sys)@.wf(),
            r is Ok <==> old(sys)@.show_ok(self.handle),
            old(sys)@.show_ok(self.handle) ==> final(sys)@ == old(sys)@.after_show(self.handle),
            !old(sys)@.show_ok(self.handle) ==> final(sys)@ == old(sys)@,
            (old(sys)@.initted && old(sys)@.has_note(self.handle)) ==> (old(sys)@.show_failure matches Some(msg) ==> (r matches Err(e) && e.message@ == msg)),
            !(old(sys)@.initted && old(sys)@.has_note(self.handle)) ==> (r matches Err(e)
                && e.message@ == "the notification is no longer valid: its context is gone"@),
    {
        match sys.show(self.handle) {
            None => Ok(()),
            Some(m) => Err(NotificationShowError { message: m }),
        }
    }

    /// Sets the display-duration hint, in milliseconds.  The
    /// notification server is free to ignore the hint; nothing is
    /// rendered, and a notification whose context is gone is left
    /// untouched.
    pub fn set_notification_timeout(&self, timeout: i32, sys: &mut Subsystem)
        requires
            old(sys)@.wf(),
        ensures
            final(sys)@.wf(),
            final(sys)@ == old(sys)@.after_set_timeout(self.handle, timeout),
    {
        sys.set_timeout(self.handle, timeout);
    }

    /// Updates the notification's text and icon.
    ///
    /// This only mutates the subsystem's record; it does not send the
    /// update out to the screen.  For that, a subsequent
    /// [`show`](Notification::show) call is required.  The text fields
    /// are checked for interior nul bytes in order (summary, body,
    /// icon) before any native call; once its context is destroyed the
    /// subsystem rejects the update as an invalid parameter.
    pub fn update(&self, summary: &str, body: Option<&str>, icon: Option<&str>, sys: &mut Subsystem) -> (r:
        Result<(), NotificationCreationError>)
        requires
            old(sys)@.wf(),
        ensures
            final(sys)@.wf(),
            r is Ok <==> (texts_ok(summary, body, icon) && old(sys)@.has_note(self.handle)),
            final(sys)@.render_log == old(sys)@.render_log,
            !texts_ok(summary, body, icon) ==> final(sys)@ == old(sys)@,
            chars_have_nul(summary@) ==> (r matches Err(NotificationCreationError::NulError(p))
                && is_first_nul(summary.spec_bytes(), p as int)),
            !chars_have_nul(summary@) && opt_has_nul(body) ==> (body matches Some(b) ==> (r matches Err(
                NotificationCreationError::NulError(p),
            ) && is_first_nul(b.spec_bytes(), p as int))),
            !chars_have_nul(summary@) && !opt_has_nul(body) && opt_has_nul(icon) ==> (icon matches Some(
                ic,
            ) ==> (r matches Err(NotificationCreationError::NulError(p)) && is_first_nul(
                ic.spec_bytes(),
                p as int,
            ))),
            texts_ok(summary, body, icon) ==> final(sys)@ == old(sys)@.after_update(
                self.handle,
                summary@,
                opt_view(body),
                opt_view(icon),
            ),
            texts_ok(summary, body, icon) && !old(sys)@.has_note(self.handle) ==> r matches Err(
                NotificationCreationError::InvalidParameter,
            ),
    {
        if let Some(e) = crate::text::check_texts(summary, body, icon) {
            return Err(e);
        }
        if !sys.update(self.handle, summary, body, icon) {
            return Err(NotificationCreationError::InvalidParameter);
        }
        Ok(())
    }

    /// Releases the notification, freeing its handle: the subsystem's
    /// record for it is gone, and the handle is invalid from here on.
    /// Whatever was already rendered stays on the screen.
    pub fn release(self, sys: &mut Subsystem)
        requires
            old(sys)@.wf(),
        ensures
            final(sys)@.wf(),
            final(sys)@ == old(sys)@.after_release(self.handle),
    {
        sys.release(self.handle);
    }
}

} // verus!
