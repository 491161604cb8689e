//! The native notification subsystem, as this layer observes it.
//!
//! The real subsystem lives behind a narrow call surface: query the
//! initialized flag, initialize with an application name, tear down,
//! create a notification object, show it, update its fields, set its
//! timeout hint.  [`Subsystem`] models that surface as a value: it tracks
//! the initialized flag, the live notification records, and a log of the
//! calls that were made, so contracts can state both what an operation
//! changed and that an operation made no native call at all.
//!
//! The `refuse_*` and `show_failure` fields inject the failures the real
//! subsystem is allowed to report (initialization failure, a null handle
//! from creation, an error object from show), so every error path of the
//! layer above can be exercised.
//!
//! [`Model`] is the abstract state: the view of a [`Subsystem`], and the
//! vocabulary of every contract in this crate.

use vstd::prelude::*;

use crate::text::opt_view;

verus! {

/// The abstract state of one live notification record.
#[verifier::ext_equal]
pub ghost struct NoteModel {
    /// The opaque handle the subsystem returned for this record.
    pub handle: u64,
    /// Required summary text.
    pub summary: Seq<char>,
    /// Optional body text.
    pub body: Option<Seq<char>>,
    /// Optional icon name or path.
    pub icon: Option<Seq<char>>,
    /// Display-duration hint in milliseconds; the display server may
    /// ignore it.
    pub timeout: i32,
}

/// The abstract state of the subsystem.
#[verifier::ext_equal]
pub ghost struct Model {
    /// Whether the subsystem is initialized.
    pub initted: bool,
    /// The application name it was initialized with, while initialized.
    pub app_name: Option<Seq<char>>,
    /// Failure injection: the next initialization calls report failure.
    pub refuse_init: bool,
    /// Failure injection: creation calls return no handle.
    pub refuse_create: bool,
    /// Failure injection: show calls report an error object carrying
    /// this message.
    pub show_failure: Option<Seq<char>>,
    /// The handle the next successful creation will return.
    pub next_handle: u64,
    /// The live notification records, oldest first.
    pub notes: Seq<NoteModel>,
    /// One entry per native initialization call: whether it succeeded.
    pub init_log: Seq<bool>,
    /// One entry per native creation call: whether a handle came back.
    pub create_log: Seq<bool>,
    /// One entry per successful native show call: the handle rendered.
    pub render_log: Seq<u64>,
    /// One entry per native update call: the handle passed.
    pub update_log: Seq<u64>,
}

impl Model {
    /// Well-formed: handles are distinct and below the next handle.
    pub open spec fn wf(self) -> bool {
        &&& forall|i: int| 0 <= i < self.notes.len() ==> (#[trigger] self.notes[i].handle)
            < self.next_handle
        &&& forall|i: int, j: int|
            0 <= i < j < self.notes.len() ==> (#[trigger] self.notes[i].handle) != (
            #[trigger] self.notes[j].handle)
    }

    /// Whether a live record carries this handle.
    pub open spec fn has_note(self, handle: u64) -> bool {
        exists|i: int| 0 <= i < self.notes.len() && (#[trigger] self.notes[i].handle) == handle
    }

    /// The index of the live record carrying this handle.
    pub open spec fn note_index(self, handle: u64) -> int {
        choose|i: int| 0 <= i < self.notes.len() && (#[trigger] self.notes[i].handle) == handle
    }

    /// Whether this handle has been rendered at least once.
    pub open spec fn shown(self, handle: u64) -> bool {
        self.render_log.contains(handle)
    }

    /// Whether initialization with this application name goes through:
    /// nothing is initialized yet, the name is clean, and the subsystem
    /// does not refuse.
    pub open spec fn init_ok(self, app_name: Seq<char>) -> bool {
        &&& !self.initted
        &&& !crate::text::chars_have_nul(app_name)
        &&& !self.refuse_init
    }

    /// The state after a successful initialization call.
    pub open spec fn after_init(self, app_name: Seq<char>) -> Model {
        Model {
            initted: true,
            app_name: Some(app_name),
            init_log: self.init_log.push(true),
            ..self
        }
    }

    /// The state after an initialization call the subsystem refused.
    pub open spec fn after_init_refused(self) -> Model {
        Model { init_log: self.init_log.push(false), ..self }
    }

    /// The state after teardown: no longer initialized, and every live
    /// record is invalidated.  The call logs are history and persist.
    pub open spec fn after_uninit(self) -> Model {
        Model {
            initted: false,
            app_name: None,
            notes: Seq::empty(),
            ..self
        }
    }

    /// The state after a successful creation call.
    pub open spec fn after_create(
        self,
        summary: Seq<char>,
        body: Option<Seq<char>>,
        icon: Option<Seq<char>>,
    ) -> Model {
        Model {
            next_handle: (self.next_handle + 1) as u64,
            notes: self.notes.push(
                NoteModel {
                    handle: self.next_handle,
                    summary: summary,
                    body: body,
                    icon: icon,
                    timeout: -1i32,
                },
            ),
            create_log: self.create_log.push(true),
            ..self
        }
    }

    /// The state after a creation call that returned no handle.
    pub open spec fn after_create_refused(self) -> Model {
        Model { create_log: self.create_log.push(false), ..self }
    }

    /// Whether the subsystem can still hand out a fresh handle.
    pub open spec fn can_allocate(self) -> bool {
        self.next_handle < u64::MAX
    }

    /// Whether a creation call goes through: the subsystem does not
    /// refuse, and a fresh handle is available.
    pub open spec fn create_ok(self) -> bool {
        !self.refuse_create && self.can_allocate()
    }

    /// The state after releasing a handle: when a live record carries
    /// it, that record is gone; otherwise nothing changes.
    pub open spec fn after_release(self, handle: u64) -> Model {
        if self.has_note(handle) {
            Model { notes: self.notes.remove(self.note_index(handle)), ..self }
        } else {
            self
        }
    }

    /// Whether a show call on this handle succeeds: the subsystem is
    /// initialized, the record is live, and no failure is injected.
    pub open spec fn show_ok(self, handle: u64) -> bool {
        &&& self.initted
        &&& self.has_note(handle)
        &&& self.show_failure is None
    }

    /// The state after a successful show call: the handle was rendered.
    pub open spec fn after_show(self, handle: u64) -> Model {
        Model { render_log: self.render_log.push(handle), ..self }
    }

    /// The state after an update call: the call is logged, and when a
    /// live record carries the handle, its text fields are replaced.
    /// Nothing is rendered.
    pub open spec fn after_update(
        self,
        handle: u64,
        summary: Seq<char>,
        body: Option<Seq<char>>,
        icon: Option<Seq<char>>,
    ) -> Model {
        Model {
            update_log: self.update_log.push(handle),
            notes: Seq::new(
                self.notes.len(),
                |i: int|
                    if self.notes[i].handle == handle {
                        NoteModel { summary: summary, body: body, icon: icon, ..self.notes[i] }
                    } else {
                        self.notes[i]
                    },
            ),
            ..self
        }
    }

    /// The state after a set-timeout call: when a live record carries
    /// the handle, its timeout hint is replaced.
    pub open spec fn after_set_timeout(self, handle: u64, timeout: i32) -> Model {
        Model {
            notes: Seq::new(
                self.notes.len(),
                |i: int|
                    if self.notes[i].handle == handle {
                        NoteModel { timeout: timeout, ..self.notes[i] }
                    } else {
                        self.notes[i]
                    },
            ),
            ..self
        }
    }
}

/// One live notification record of the subsystem.
pub struct NoteRecord {
    /// The opaque handle the subsystem returned for this record.
    pub handle: u64,
    /// Required summary text.
    pub summary: String,
    /// Optional body text.
    pub body: Option<String>,
    /// Optional icon name or path.
    pub icon: Option<String>,
    /// Display-duration hint in milliseconds.
    pub timeout: i32,
}

impl View for NoteRecord {
    type V = NoteModel;

    open spec fn view(&self) -> NoteModel {
        NoteModel {
            handle: self.handle,
            summary: self.summary@,
            body: opt_string_view(self.body),
            icon: opt_string_view(self.icon),
            timeout: self.timeout,
        }
    }
}

/// The character sequence of an optional owned text field.
pub open spec fn opt_string_view(s: Option<String>) -> Option<Seq<char>> {
    match s {
        Some(t) => Some(t@),
        None => None,
    }
}

/// The notification subsystem, as observed through its call surface.
pub struct Subsystem {
    /// Whether the subsystem is initialized.
    pub initted: bool,
    /// The application name it was initialized with, while initialized.
    pub app_name: Option<String>,
    /// Failure injection: initialization calls report failure.
    pub refuse_init: bool,
    /// Failure injection: creation calls return no handle.
    pub refuse_create: bool,
    /// Failure injection: show calls report an error with this message.
    pub show_failure: Option<String>,
    /// The handle the next successful creation will return.
    pub next_handle: u64,
    /// The live notification records, oldest first.
    pub records: Vec<NoteRecord>,
    /// One entry per native initialization call: whether it succeeded.
    pub init_log: Vec<bool>,
    /// One entry per native creation call: whether a handle came back.
    pub create_log: Vec<bool>,
    /// One entry per successful native show call: the handle rendered.
    pub render_log: Vec<u64>,
    /// One entry per native update call: the handle passed.
    pub update_log: Vec<u64>,
}

impl View for Subsystem {
    type V = Model;

    open spec fn view(&self) -> Model {
        Model {
            initted: self.initted,
            app_name: opt_string_view(self.app_name),
            refuse_init: self.refuse_init,
            refuse_create: self.refuse_create,
            show_failure: opt_string_view(self.show_failure),
            next_handle: self.next_handle,
            notes: self.records@.map_values(|r: NoteRecord| r@),
            init_log: self.init_log@,
            create_log: self.create_log@,
            render_log: self.render_log@,
            update_log: self.update_log@,
        }
    }
}

impl Subsystem {
    /// A fresh subsystem: not initialized, no records, no failures
    /// injected, nothing logged.
    pub fn new() -> (r: Subsystem)
        ensures
            r@.wf(),
            !r@.initted,
            r@.app_name is None,
            !r@.refuse_init,
            !r@.refuse_create,
            r@.show_failure is None,
            r@.next_handle == 1,
            r@.notes == Seq::<NoteModel>::empty(),
            r@.init_log == Seq::<bool>::empty(),
            r@.create_log == Seq::<bool>::empty(),
            r@.render_log == Seq::<u64>::empty(),
            r@.update_log == Seq::<u64>::empty(),
    {
        let r = Subsystem {
            initted: false,
            app_name: None,
            refuse_init: false,
            refuse_create: false,
            show_failure: None,
            next_handle: 1,
            records: Vec::new(),
            init_log: Vec::new(),
            create_log: Vec::new(),
            render_log: Vec::new(),
            update_log: Vec::new(),
        };
        proof {
            assert(r@.notes =~= Seq::<NoteModel>::empty());
        }
        r
    }

    /// Queries the initialized flag, as the native query call would.
    pub fn is_initted(&self) -> (r: bool)
        ensures
            r == self@.initted,
    {
        self.initted
    }

    /// The native initialization call: reports success unless refused,
    /// and on success records the application name.
    pub fn init(&mut self, app_name: &str) -> (r: bool)
        requires
            old(self)@.wf(),
        ensures
            final(self)@.wf(),
            r == !old(self)@.refuse_init,
            r ==> final(self)@ == old(self)@.after_init(app_name@),
            !r ==> final(self)@ == old(self)@.after_init_refused(),
    {
        if self.refuse_init {
            self.init_log.push(false);
            proof {
                assert(self@ =~= old(self)@.after_init_refused());
            }
            false
        } else {
            self.init_log.push(true);
            self.initted = true;
            self.app_name = Some(app_name.to_owned());
            proof {
                assert(self@ =~= old(self)@.after_init(app_name@));
            }
            true
        }
    }

    /// The native teardown call: clears the initialized flag and
    /// invalidates every live record.
    pub fn uninit(&mut self)
        requires
            old(self)@.wf(),
        ensures
            final(self)@.wf(),
            final(self)@ == old(self)@.after_uninit(),
    {
        self.initted = false;
        self.app_name = None;
        self.records = Vec::new();
        proof {
            assert(self@.notes =~= Seq::<NoteModel>::empty());
            assert(self@ =~= old(self)@.after_uninit());
        }
    }

    /// The index of the live record carrying this handle.
    fn find_index(&self, handle: u64) -> (r: Option<usize>)
        requires
            self@.wf(),
        ensures
            r is Some <==> self@.has_note(handle),
            r matches Some(i) ==> i < self@.notes.len() && self@.notes[i as int].handle == handle
                && self@.note_index(handle) == i as int,
    {
        let n = self.records.len();
        let mut i: usize = 0;
        while i < n
            invariant
                self@.wf(),
                n == self.records.len(),
                0 <= i <= n,
                forall|j: int| 0 <= j < i ==> (#[trigger] self@.notes[j].handle) != handle,
            decreases n - i,
        {
            if self.records[i].handle == handle {
                proof {
                    assert(self@.notes[i as int].handle == handle);
                    assert forall|k: int|
                        0 <= k < self@.notes.len() && (#[trigger] self@.notes[k].handle)
                            == handle implies k == i as int by {
                        if k != i as int {
                            assert(self@.wf());
                        }
                    }
                    assert(self@.note_index(handle) == i as int);
                }
                return Some(i);
            }
            i = i + 1;
        }
        None
    }

    /// The native creation call: unless it refuses or has no fresh
    /// handle left, makes a new record with the given texts, the
    /// default timeout hint and the next handle, and returns that
    /// handle.  A call that returns no handle changes nothing but the
    /// call log.
    pub fn create(&mut self, summary: &str, body: Option<&str>, icon: Option<&str>) -> (r: Option<
        u64,
    >)
        requires
            old(self)@.wf(),
        ensures
            final(self)@.wf(),
            r is Some <==> old(self)@.create_ok(),
            !old(self)@.create_ok() ==> final(self)@ == old(self)@.after_create_refused(),
            old(self)@.create_ok() ==> (r matches Some(h) && h == old(self)@.next_handle && final(self)@
                == old(self)@.after_create(summary@, opt_view(body), opt_view(icon))),
    {
        if self.refuse_create || self.next_handle == u64::MAX {
            self.create_log.push(false);
            proof {
                assert(self@ =~= old(self)@.after_create_refused());
            }
            None
        } else {
            self.create_log.push(true);
            let h = self.next_handle;
            self.next_handle = self.next_handle + 1;
            self.records.push(
                NoteRecord {
                    handle: h,
                    summary: summary.to_owned(),
                    body: opt_owned(body),
                    icon: opt_owned(icon),
                    timeout: -1,
                },
            );
            proof {
                assert(self@.notes =~= old(self)@.after_create(
                    summary@,
                    opt_view(body),
                    opt_view(icon),
                ).notes);
                assert(self@ =~= old(self)@.after_create(summary@, opt_view(body), opt_view(icon)));
            }
            Some(h)
        }
    }

    /// The native show call, with its error out-parameter: returns
    /// nothing on success, and the error message otherwise.  A handle
    /// whose record is gone, or a subsystem that is no longer
    /// initialized, yields an invalid-notification message; an injected
    /// failure yields its message verbatim.
    pub fn show(&mut self, handle: u64) -> (r: Option<String>)
        requires
            old(self)@.wf(),
        ensures
            final(self)@.wf(),
            r is None <==> old(self)@.show_ok(handle),
            old(self)@.show_ok(handle) ==> final(self)@ == old(self)@.after_show(handle),
            !old(self)@.show_ok(handle) ==> final(self)@ == old(self)@,
            (old(self)@.initted && old(self)@.has_note(handle)) ==> (old(self)@.show_failure matches Some(msg) ==> (r matches Some(m) && m@ == msg)),
            !(old(self)@.initted && old(self)@.has_note(handle)) ==> (r matches Some(m) && m@
                == "the notification is no longer valid: its context is gone"@),
    {
        if !self.initted {
            return Some("the notification is no longer valid: its context is gone".to_owned());
        }
        match self.find_index(handle) {
            None => Some("the notification is no longer valid: its context is gone".to_owned()),
            Some(_i) => {
                match &self.show_failure {
                    Some(m) => Some(m.clone()),
                    None => {
                        self.render_log.push(handle);
                        proof {
                            assert(self@ =~= old(self)@.after_show(handle));
                        }
                        None
                    },
                }
            },
        }
    }

    /// The native update call: logs the call, and when a live record
    /// carries the handle, replaces its text fields and reports success.
    /// Nothing is rendered by this call.
    pub fn update(&mut self, handle: u64, summary: &str, body: Option<&str>, icon: Option<
        &str,
    >) -> (r: bool)
        requires
            old(self)@.wf(),
        ensures
            final(self)@.wf(),
            r == old(self)@.has_note(handle),
            final(self)@ == old(self)@.after_update(handle, summary@, opt_view(body), opt_view(icon)),
    {
        self.update_log.push(handle);
        let found = self.find_index(handle);
        match found {
            None => {
                proof {
                    assert(self@.notes =~= old(self)@.after_update(
                        handle,
                        summary@,
                        opt_view(body),
                        opt_view(icon),
                    ).notes);
                    assert(self@ =~= old(self)@.after_update(
                        handle,
                        summary@,
                        opt_view(body),
                        opt_view(icon),
                    ));
                }
                false
            },
            Some(i) => {
                let mut rec = self.records.remove(i);
                rec.summary = summary.to_owned();
                rec.body = opt_owned(body);
                rec.icon = opt_owned(icon);
                self.records.insert(i, rec);
                proof {
                    assert(self@.notes =~= old(self)@.after_update(
                        handle,
                        summary@,
                        opt_view(body),
                        opt_view(icon),
                    ).notes);
                    assert(self@ =~= old(self)@.after_update(
                        handle,
                        summary@,
                        opt_view(body),
                        opt_view(icon),
                    ));
                }
                true
            },
        }
    }

    /// The native set-timeout call: when a live record carries the
    /// handle, replaces its display-duration hint.  The display server
    /// is free to ignore the hint; nothing is rendered by this call.
    pub fn set_timeout(&mut self, handle: u64, timeout: i32)
        requires
            old(self)@.wf(),
        ensures
            final(self)@.wf(),
            final(self)@ == old(self)@.after_set_timeout(handle, timeout),
    {
        let found = self.find_index(handle);
        match found {
            None => {
                proof {
                    assert(self@.notes =~= old(self)@.after_set_timeout(handle, timeout).notes);
                    assert(self@ =~= old(self)@.after_set_timeout(handle, timeout));
                }
            },
            Some(i) => {
                let mut rec = self.records.remove(i);
                rec.timeout = timeout;
                self.records.insert(i, rec);
                proof {
                    assert(self@.notes =~= old(self)@.after_set_timeout(handle, timeout).notes);
                    assert(self@ =~= old(self)@.after_set_timeout(handle, timeout));
                }
            },
        }
    }

    /// Releases a handle: the record carrying it, if any, is freed and
    /// gone from the live records.  Releasing an unknown handle changes
    /// nothing.
    pub fn release(&mut self, handle: u64)
        requires
            old(self)@.wf(),
        ensures
            final(self)@.wf(),
            final(self)@ == old(self)@.after_release(handle),
    {
        let found = self.find_index(handle);
        match found {
            None => {},
            Some(i) => {
                self.records.remove(i);
                proof {
                    let target = old(self)@.after_release(handle);
                    assert(self@.notes =~= target.notes);
                    assert(self@ =~= target);
                    assert forall|a: int|
                        0 <= a < self@.notes.len() implies (#[trigger] self@.notes[a].handle)
                        < self@.next_handle by {
                        let m0 = old(self)@;
                        let a0: int = if a < i as int { a } else { a + 1 };
                        assert(self@.notes[a] == m0.notes[a0]);
                    }
                    assert forall|a: int, b: int|
                        0 <= a < b < self@.notes.len() implies (#[trigger] self@.notes[a].handle)
                        != (#[trigger] self@.notes[b].handle) by {
                        let m0 = old(self)@;
                        let a0: int = if a < i as int { a } else { a + 1 };
                        let b0: int = if b < i as int { b } else { b + 1 };
                        assert(self@.notes[a] == m0.notes[a0]);
                        assert(self@.notes[b] == m0.notes[b0]);
                    }
                }
            },
        }
    }
}

/// Copies an optional borrowed text field into an owned one.
fn opt_owned(s: Option<&str>) -> (r: Option<String>)
    ensures
        opt_string_view(r) == opt_view(s),
{
    match s {
        Some(t) => Some(t.to_owned()),
        None => None,
    }
}

} // verus!
