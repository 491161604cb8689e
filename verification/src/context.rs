//! The context within which the notification subsystem operates.
//!
//! Only one context can exist at a time: creating one initializes the
//! subsystem, and creating a second one is refused while the first still
//! lives.  Destroying the context tears the subsystem down, after which
//! a fresh context may be created again.

use vstd::prelude::*;

use crate::errors::{ContextCreationError, Error, NotificationCreationError};
use crate::notification::Notification;
use crate::subsystem::Subsystem;

verus! {

use crate::text::{chars_have_nul, check_texts, find_nul, is_first_nul, opt_has_nul, opt_view,
    texts_ok};
use vstd::string::StringSliceAdditionalSpecFns;

/// Exclusive ownership of the initialized notification subsystem.
///
/// The value itself stores nothing: the real state lives in the
/// subsystem, and holding a `Context` is the proof of having initialized
/// it.
pub struct Context {}

impl Context {
    /// Creates a new context, initializing the subsystem with the given
    /// application name.
    ///
    /// Fails with `AlreadyExists` while the subsystem is already
    /// initialized, before any other native call; with `NulError` when
    /// the name carries an interior nul byte, before the initialization
    /// call; and with `InitError` when the subsystem refuses to
    /// initialize.  Succeeds exactly when none of these holds.
    pub fn new(app_name: &str, sys: &mut Subsystem) -> (r: Result<Context, ContextCreationError>)
        requires
            old(sys)@.wf(),
        ensures
            final(sys)@.wf(),
            r is Ok <==> old(sys)@.init_ok(app_name@),
            old(sys)@.initted ==> (r matches Err(ContextCreationError::AlreadyExists) && final(sys)@ == old(sys)@),
            !old(sys)@.initted && chars_have_nul(app_name@) ==> ((r matches Err(
                ContextCreationError::NulError(p),
            ) && is_first_nul(app_name.spec_bytes(), p as int)) && final(sys)@ == old(sys)@),
            !old(sys)@.initted && !chars_have_nul(app_name@) && old(sys)@.refuse_init ==> (
            r matches Err(ContextCreationError::InitError) && final(sys)@ == old(sys)@.after_init_refused()),
            old(sys)@.init_ok(app_name@) ==> final(sys)@ == old(sys)@.after_init(app_name@),
    {
        if sys.is_initted() {
            return Err(ContextCreationError::AlreadyExists);
        }
        if let Some(p) = find_nul(app_name) {
            return Err(ContextCreationError::NulError(p));
        }
        if !sys.init(app_name) {
            return Err(ContextCreationError::InitError);
        }
        Ok(Context {})
    }

    /// Creates a new notification.
    ///
    /// The text fields are checked for interior nul bytes in order
    /// (summary, body, icon) before any native call; then the
    /// subsystem's creation call either hands back a fresh handle or,
    /// returning none (it refused, or no handle is left), yields
    /// `Unknown`.  Succeeds exactly when the texts are clean and a
    /// handle comes back.
    pub fn new_notification(
        &self,
        summary: &str,
        body: Option<&str>,
        icon: Option<&str>,
        sys: &mut Subsystem,
    ) -> (r: Result<Notification, NotificationCreationError>)
        requires
            old(sys)@.wf(),
        ensures
            final(sys)@.wf(),
            r is Ok <==> (texts_ok(summary, body, icon) && old(sys)@.create_ok()),
            !texts_ok(summary, body, icon) ==> final(sys)@ == old(sys)@,
            chars_have_nul(summary@) ==> (r matches Err(NotificationCreationError::NulError(p))
                && is_first_nul(summary.spec_bytes(), p as int)),
            !chars_have_nul(summary@) && opt_has_nul(body) ==> (body matches Some(b) ==> (r matches Err(
                NotificationCreationError::NulError(p),
            ) && is_first_nul(b.spec_bytes(), p as int))),
            !chars_have_nul(summary@) && !opt_has_nul(body) && opt_has_nul(icon) ==> (icon matches Some(
                ic,
            ) ==> (r matches Err(NotificationCreationError::NulError(p)) && is_first_nul(
                ic.spec_bytes(),
                p as int,
            ))),
            texts_ok(summary, body, icon) && !old(sys)@.create_ok() ==> (r matches Err(
                NotificationCreationError::Unknown,
            ) && final(sys)@ == old(sys)@.after_create_refused()),
            texts_ok(summary, body, icon) && old(sys)@.create_ok() ==> (r matches Ok(n)
                && n.handle == old(sys)@.next_handle && final(sys)@ == old(sys)@.after_create(
                summary@,
                opt_view(body),
                opt_view(icon),
            )),
    {
        if let Some(e) = check_texts(summary, body, icon) {
            return Err(e);
        }
        match sys.create(summary, body, icon) {
            None => Err(NotificationCreationError::Unknown),
            Some(h) => Ok(Notification { handle: h }),
        }
    }

    /// Shows a notification in one step.
    ///
    /// This is a convenience composition: it creates a new notification,
    /// shows it, and releases it, propagating whichever step's error
    /// comes first; what was rendered stays rendered.
    pub fn show(
        &self,
        summary: &str,
        body: Option<&str>,
        icon: Option<&str>,
        sys: &mut Subsystem,
    ) -> (r: Result<(), Error>)
        requires
            old(sys)@.wf(),
        ensures
            final(sys)@.wf(),
            r is Ok <==> (texts_ok(summary, body, icon) && old(sys)@.create_ok() && old(sys)@.initted && old(sys)@.show_failure is None),
            r is Ok ==> final(sys)@ == old(sys)@.after_create(
                summary@,
                opt_view(body),
                opt_view(icon),
            ).after_show(old(sys)@.next_handle).after_release(old(sys)@.next_handle),
            !texts_ok(summary, body, icon) ==> (final(sys)@ == old(sys)@ && (r matches Err(
                Error::Creation(NotificationCreationError::NulError(_)),
            ))),
            chars_have_nul(summary@) ==> (r matches Err(Error::Creation(
                NotificationCreationError::NulError(p),
            )) && is_first_nul(summary.spec_bytes(), p as int)),
            !chars_have_nul(summary@) && opt_has_nul(body) ==> (body matches Some(b) ==> (r matches Err(
                Error::Creation(NotificationCreationError::NulError(p)),
            ) && is_first_nul(b.spec_bytes(), p as int))),
            !chars_have_nul(summary@) && !opt_has_nul(body) && opt_has_nul(icon) ==> (icon matches Some(
                ic,
            ) ==> (r matches Err(Error::Creation(NotificationCreationError::NulError(p)))
                && is_first_nul(ic.spec_bytes(), p as int))),
            texts_ok(summary, body, icon) && !old(sys)@.create_ok() ==> (r matches Err(
                Error::Creation(NotificationCreationError::Unknown),
            ) && final(sys)@ == old(sys)@.after_create_refused()),
            texts_ok(summary, body, icon) && old(sys)@.create_ok() && !old(sys)@.initted ==> (
            r matches Err(Error::Show(e)) && e.message@
                == "the notification is no longer valid: its context is gone"@),
            texts_ok(summary, body, icon) && old(sys)@.create_ok() && old(sys)@.initted ==> (old(sys)@.show_failure matches Some(msg) ==> (r matches Err(Error::Show(e)) && e.message@
                == msg)),
            texts_ok(summary, body, icon) && old(sys)@.create_ok() && !(old(sys)@.initted && old(sys)@.show_failure is None) ==> final(sys)@ == old(sys)@.after_create(
                summary@,
                opt_view(body),
                opt_view(icon),
            ).after_release(old(sys)@.next_handle),
    {
        let notif = match self.new_notification(summary, body, icon, sys) {
            Err(e) => {
                return Err(Error::Creation(e));
            },
            Ok(n) => n,
        };
        proof {
            if texts_ok(summary, body, icon) && old(sys)@.create_ok() {
                let m = old(sys)@.after_create(summary@, opt_view(body), opt_view(icon));
                assert(m.notes[m.notes.len() - 1].handle == notif.handle);
                assert(sys@.has_note(notif.handle));
            }
        }
        let shown = notif.show(sys);
        notif.release(sys);
        match shown {
            Err(e) => Err(Error::Show(e)),
            Ok(u) => Ok(u),
        }
    }

    /// Destroys the context, tearing the subsystem down.
    ///
    /// Afterwards the subsystem is no longer initialized, every
    /// notification this context created is invalidated, and a fresh
    /// context may legally be created again.
    pub fn destroy(self, sys: &mut Subsystem)
        requires
            old(sys)@.wf(),
        ensures
            final(sys)@.wf(),
            final(sys)@ == old(sys)@.after_uninit(),
    {
        sys.uninit();
    }
}

} // verus!
