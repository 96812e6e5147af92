use vstd::prelude::*;

use crate::sys::LogPriority;
use crate::sys::NativeCall;
use crate::sys::nul_free;

verus! {

/// The fixed fallback tag, used while no tag has been initialized.
pub open spec fn default_tag() -> Seq<char> {
    "RustLog"@
}

/// The default tag can always be marshaled: it holds no null character.
pub proof fn lemma_default_tag_nul_free()
    ensures
        nul_free(default_tag()),
{
    reveal_strlit("RustLog");
}

/// The abstract state of a logger context: the tag (if one was set), the
/// enable flag, and whether this sink was registered with the generic
/// logging facade.
pub struct LogView {
    pub tag: Option<Seq<char>>,
    pub enabled: bool,
    pub facade_registered: bool,
}

impl LogView {
    /// The tag that dispatch resolves to: the initialized tag, or the fixed
    /// default while none was set.
    pub open spec fn current_tag(self) -> Seq<char> {
        match self.tag {
            Some(t) => t,
            None => default_tag(),
        }
    }

    /// Well-formedness: a tag, once set, can be marshaled into a
    /// null-terminated native string.
    pub open spec fn wf(self) -> bool {
        self.tag matches Some(t) ==> nul_free(t)
    }
}

/// A well-formed context resolves to a tag with no embedded null, whether or
/// not one was initialized.
pub proof fn lemma_current_tag_nul_free(v: LogView)
    requires
        v.wf(),
    ensures
        nul_free(v.current_tag()),
{
    if v.tag is None {
        lemma_default_tag_nul_free();
    }
}

/// The error for a second registration with the generic logging facade: the
/// facade admits one registration per process, so there is no recovery path
/// and the caller is expected to terminate.
#[derive(Clone, Copy, Debug, PartialEq, Eq, Structural)]
pub struct RegisterError;

/// A logger context: the process-wide logging state, carried as an explicit
/// value. The tag is set at most once (first writer wins), the enable flag
/// gates every dispatch, and each dispatch call describes at most one native
/// call for the unverified shell to perform.
pub struct Log {
    tag: Option<String>,
    enabled: bool,
    facade_registered: bool,
}

impl View for Log {
    type V = LogView;

    closed spec fn view(&self) -> LogView {
        LogView {
            tag: match self.tag {
                Some(t) => Some(t@),
                None => None,
            },
            enabled: self.enabled,
            facade_registered: self.facade_registered,
        }
    }
}

impl Log {
    /// A fresh context: no tag set, logging enabled, not registered with the
    /// facade. This is the state of a process before any initialization.
    pub fn new() -> (r: Log)
        ensures
            r@ == (LogView { tag: None, enabled: true, facade_registered: false }),
    {
        Log { tag: None, enabled: true, facade_registered: false }
    }

    /// Describe a formatted native call, gated by the enable flag.
    ///
    /// Exactly one native call results when logging is enabled, and none when
    /// it is disabled. The described call carries the priority's ABI code,
    /// the tag, the fixed `"%s"` format, and the message as the single
    /// substitution argument: the message is never itself interpreted as a
    /// format string.
    pub fn print(&self, prio: LogPriority, tag: &str, msg: &str) -> (r: Option<NativeCall>)
        requires
            self@.enabled ==> nul_free(tag@) && nul_free(msg@),
        ensures
            (r is Some) == self@.enabled,
            (r matches Some(c) ==> (c matches NativeCall::Print { prio: p, tag: t, fmt: f, arg: a }
                && p as int == prio.code_spec()
                && t@ == tag@
                && f@ == "%s"@
                && a@ == msg@)),
    {
        if !self.is_enabled() {
            return None;
        }
        Some(NativeCall::Print {
            prio: prio.as_code(),
            tag: String::from_str(tag),
            fmt: String::from_str("%s"),
            arg: String::from_str(msg),
        })
    }

    /// Describe a plain native call, gated by the enable flag: the message
    /// text goes to the sink as it stands, with no formatting step at all.
    pub fn write(&self, prio: LogPriority, tag: &str, msg: &str) -> (r: Option<NativeCall>)
        requires
            self@.enabled ==> nul_free(tag@) && nul_free(msg@),
        ensures
            (r is Some) == self@.enabled,
            (r matches Some(c) ==> (c matches NativeCall::Write { prio: p, tag: t, text: x }
                && p as int == prio.code_spec()
                && t@ == tag@
                && x@ == msg@)),
    {
        if !self.is_enabled() {
            return None;
        }
        Some(NativeCall::Write {
            prio: prio.as_code(),
            tag: String::from_str(tag),
            text: String::from_str(msg),
        })
    }

    /// Verbose-level dispatch with an explicit tag.
    pub fn verbose(&self, tag: &str, msg: &str) -> (r: Option<NativeCall>)
        requires
            self@.enabled ==> nul_free(tag@) && nul_free(msg@),
        ensures
            (r is Some) == self@.enabled,
            (r matches Some(c) ==> (c matches NativeCall::Print { prio: p, tag: t, fmt: f, arg: a }
                && p as int == LogPriority::VERBOSE.code_spec()
                && t@ == tag@
                && f@ == "%s"@
                && a@ == msg@)),
    {
        self.print(LogPriority::VERBOSE, tag, msg)
    }

    /// Debug-level dispatch with an explicit tag.
    pub fn debug(&self, tag: &str, msg: &str) -> (r: Option<NativeCall>)
        requires
            self@.enabled ==> nul_free(tag@) && nul_free(msg@),
        ensures
            (r is Some) == self@.enabled,
            (r matches Some(c) ==> (c matches NativeCall::Print { prio: p, tag: t, fmt: f, arg: a }
                && p as int == LogPriority::DEBUG.code_spec()
                && t@ == tag@
                && f@ == "%s"@
                && a@ == msg@)),
    {
        self.print(LogPriority::DEBUG, tag, msg)
    }

    /// Info-level dispatch with an explicit tag.
    pub fn info(&self, tag: &str, msg: &str) -> (r: Option<NativeCall>)
        requires
            self@.enabled ==> nul_free(tag@) && nul_free(msg@),
        ensures
            (r is Some) == self@.enabled,
            (r matches Some(c) ==> (c matches NativeCall::Print { prio: p, tag: t, fmt: f, arg: a }
                && p as int == LogPriority::INFO.code_spec()
                && t@ == tag@
                && f@ == "%s"@
                && a@ == msg@)),
    {
        self.print(LogPriority::INFO, tag, msg)
    }

    /// Warn-level dispatch with an explicit tag.
    pub fn warn(&self, tag: &str, msg: &str) -> (r: Option<NativeCall>)
        requires
            self@.enabled ==> nul_free(tag@) && nul_free(msg@),
        ensures
            (r is Some) == self@.enabled,
            (r matches Some(c) ==> (c matches NativeCall::Print { prio: p, tag: t, fmt: f, arg: a }
                && p as int == LogPriority::WARN.code_spec()
                && t@ == tag@
                && f@ == "%s"@
                && a@ == msg@)),
    {
        self.print(LogPriority::WARN, tag, msg)
    }

    /// Error-level dispatch with an explicit tag.
    pub fn error(&self, tag: &str, msg: &str) -> (r: Option<NativeCall>)
        requires
            self@.enabled ==> nul_free(tag@) && nul_free(msg@),
        ensures
            (r is Some) == self@.enabled,
            (r matches Some(c) ==> (c matches NativeCall::Print { prio: p, tag: t, fmt: f, arg: a }
                && p as int == LogPriority::ERROR.code_spec()
                && t@ == tag@
                && f@ == "%s"@
                && a@ == msg@)),
    {
        self.print(LogPriority::ERROR, tag, msg)
    }

    /// Verbose-level dispatch under the current global tag.
    pub fn v(&self, msg: &str) -> (r: Option<NativeCall>)
        requires
            self@.wf(),
            self@.enabled ==> nul_free(msg@),
        ensures
            (r is Some) == self@.enabled,
            (r matches Some(c) ==> (c matches NativeCall::Print { prio: p, tag: t, fmt: f, arg: a }
                && p as int == LogPriority::VERBOSE.code_spec()
                && t@ == self@.current_tag()
                && f@ == "%s"@
                && a@ == msg@)),
    {
        proof {
            lemma_current_tag_nul_free(self@);
        }
        self.verbose(self.tag(), msg)
    }

    /// Debug-level dispatch under the current global tag.
    pub fn d(&self, msg: &str) -> (r: Option<NativeCall>)
        requires
            self@.wf(),
            self@.enabled ==> nul_free(msg@),
        ensures
            (r is Some) == self@.enabled,
            (r matches Some(c) ==> (c matches NativeCall::Print { prio: p, tag: t, fmt: f, arg: a }
                && p as int == LogPriority::DEBUG.code_spec()
                && t@ == self@.current_tag()
                && f@ == "%s"@
                && a@ == msg@)),
    {
        proof {
            lemma_current_tag_nul_free(self@);
        }
        self.debug(self.tag(), msg)
    }

    /// Info-level dispatch under the current global tag.
    pub fn i(&self, msg: &str) -> (r: Option<NativeCall>)
        requires
            self@.wf(),
            self@.enabled ==> nul_free(msg@),
        ensures
            (r is Some) == self@.enabled,
            (r matches Some(c) ==> (c matches NativeCall::Print { prio: p, tag: t, fmt: f, arg: a }
                && p as int == LogPriority::INFO.code_spec()
                && t@ == self@.current_tag()
                && f@ == "%s"@
                && a@ == msg@)),
    {
        proof {
            lemma_current_tag_nul_free(self@);
        }
        self.info(self.tag(), msg)
    }

    /// Warn-level dispatch under the current global tag.
    pub fn w(&self, msg: &str) -> (r: Option<NativeCall>)
        requires
            self@.wf(),
            self@.enabled ==> nul_free(msg@),
        ensures
            (r is Some) == self@.enabled,
            (r matches Some(c) ==> (c matches NativeCall::Print { prio: p, tag: t, fmt: f, arg: a }
                && p as int == LogPriority::WARN.code_spec()
                && t@ == self@.current_tag()
                && f@ == "%s"@
                && a@ == msg@)),
    {
        proof {
            lemma_current_tag_nul_free(self@);
        }
        self.warn(self.tag(), msg)
    }

    /// Error-level dispatch under the current global tag.
    pub fn e(&self, msg: &str) -> (r: Option<NativeCall>)
        requires
            self@.wf(),
            self@.enabled ==> nul_free(msg@),
        ensures
            (r is Some) == self@.enabled,
            (r matches Some(c) ==> (c matches NativeCall::Print { prio: p, tag: t, fmt: f, arg: a }
                && p as int == LogPriority::ERROR.code_spec()
                && t@ == self@.current_tag()
                && f@ == "%s"@
                && a@ == msg@)),
    {
        proof {
            lemma_current_tag_nul_free(self@);
        }
        self.error(self.tag(), msg)
    }

    /// Initialize the context: set the tag exactly once (a second call
    /// leaves the first tag standing), re-enable logging, and, when
    /// `mixinlog` asks for it, register this sink with the generic logging
    /// facade at maximum verbosity. Registration is granted at most once per
    /// context; a second request returns [`RegisterError`], which has no
    /// recovery path.
    pub fn init(&mut self, tag: &str, mixinlog: bool) -> (r: Result<(), RegisterError>)
        requires
            old(self)@.wf(),
            nul_free(tag@),
        ensures
            final(self)@.wf(),
            final(self)@.enabled,
            final(self)@.tag is Some,
            old(self)@.tag is Some ==> final(self)@.tag == old(self)@.tag,
            old(self)@.tag is None ==> final(self)@.tag == Some(tag@),
            final(self)@.facade_registered == (old(self)@.facade_registered || mixinlog),
            (r is Err) == (mixinlog && old(self)@.facade_registered),
    {
        if self.tag.is_none() {
            self.tag = Some(String::from_str(tag));
        }
        self.enabled = true;
        if mixinlog {
            crate::mixin_log::set_facade_max_level();
            if self.facade_registered {
                return Err(RegisterError);
            }
            self.facade_registered = true;
        }
        Ok(())
    }

    /// The current tag: the initialized one, or the fixed default while none
    /// was set.
    pub fn tag(&self) -> (r: &str)
        ensures
            r@ == self@.current_tag(),
    {
        match &self.tag {
            Some(t) => t.as_str(),
            None => "RustLog",
        }
    }

    /// Turn logging on or off. Nothing else of the state changes.
    pub fn enabled(&mut self, enabled: bool)
        ensures
            final(self)@ == (LogView { enabled: enabled, ..old(self)@ }),
    {
        self.enabled = enabled;
    }

    /// Whether dispatch currently forwards to the native sink.
    pub fn is_enabled(&self) -> (r: bool)
        ensures
            r == self@.enabled,
    {
        self.enabled
    }
}

} // verus!
