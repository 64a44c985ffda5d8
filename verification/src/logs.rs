//! Log events: one message inside the current span, decorated with
//! attributes and emitted at most once. The emission decision is fixed at
//! construction from the current frame and never re-evaluated.
use vstd::prelude::*;
use vstd::string::{StrSliceExecFns, StringExecFns};

use crate::attrs::{attrs_object, AttrList, AttrValue};
use crate::json::{json_quote, json_string_of};
use crate::level::LogLevel;
use crate::numfmt::{dec_nat, u64_string};
use crate::paths::{trim_fn_path, trim_fn_spec, trim_src_path, trim_src_spec};
use crate::spans::{decide_emit, opt_view, TraceContext};
use crate::timefmt::{rfc3339_millis, rfc3339_of, ts_in_range};

verus! {

/// The log record line for these fields.
pub open spec fn log_line(
    ts_ms: int,
    span: u64,
    level: LogLevel,
    msg: Seq<char>,
    caller_file: Seq<char>,
    caller_line: u32,
    caller_fn: Seq<char>,
    attrs: Seq<(Seq<char>, Seq<char>)>,
) -> Seq<char> {
    "{\"timestamp\":\""@ + rfc3339_of(ts_ms) + "\",\"kind\":\"log\",\"span\":"@ + dec_nat(
        span as nat,
    ) + ",\"level\":\""@ + level.text() + "\",\"message\":"@ + json_string_of(msg)
        + ",\"caller\":\""@ + trim_src_spec(caller_file) + seq![':'] + dec_nat(caller_line as nat)
        + "\",\"caller_fn\":"@ + json_string_of(trim_fn_spec(caller_fn)) + ",\"attrs\":"@
        + attrs_object(attrs) + "}"@
}

/// A log event under construction: timestamp, owning span id and emission
/// decision captured when it was opened, attributes appended afterwards.
pub struct Log {
    pub time_ms: i64,
    pub span: u64,
    pub level: LogLevel,
    pub msg: String,
    pub caller_file: String,
    pub caller_line: u32,
    pub caller_fn: Option<String>,
    pub print: bool,
    pub attrs: AttrList,
}

impl Log {
    /// Open a log event at this level under the context's current frame:
    /// its reported span is the frame's last emitted ancestor, and the
    /// emission decision is made here, once, from the frame's minimum
    /// level.
    pub fn new(
        ctx: &TraceContext,
        level: LogLevel,
        msg: &str,
        now_ms: i64,
        caller_file: &str,
        caller_line: u32,
    ) -> (l: Log)
        requires
            ctx.wf(),
        ensures
            l.time_ms == now_ms,
            l.span == ctx.top_spec().last_print_id,
            l.level == level,
            l.msg@ == msg@,
            l.caller_file@ == caller_file@,
            l.caller_line == caller_line,
            l.caller_fn is None,
            l.print == decide_emit(ctx.top_spec().min_level, level),
            l.attrs@ == Seq::<(Seq<char>, Seq<char>)>::empty(),
    {
        let n = ctx.frames.len();
        let top = ctx.frames[n - 1];
        let print = match top.min_level {
            Some(m) => m.le(level),
            None => false,
        };
        Log {
            time_ms: now_ms,
            span: top.last_print_id,
            level,
            msg: String::from_str(msg),
            caller_file: String::from_str(caller_file),
            caller_line,
            caller_fn: None,
            print,
            attrs: AttrList::new(),
        }
    }

    /// The event with `(name, value)` appended to its attributes; all other
    /// fields unchanged. Consumes the event, so the prior value cannot be
    /// emitted separately.
    pub fn attr(self, name: &str, value: AttrValue) -> (r: Log)
        ensures
            r.time_ms == self.time_ms,
            r.span == self.span,
            r.level == self.level,
            r.msg@ == self.msg@,
            r.caller_file@ == self.caller_file@,
            r.caller_line == self.caller_line,
            r.caller_fn == self.caller_fn,
            r.print == self.print,
            r.attrs@ == self.attrs@.push((name@, crate::attrs::encode_value(value))),
    {
        Log {
            time_ms: self.time_ms,
            span: self.span,
            level: self.level,
            msg: self.msg,
            caller_file: self.caller_file,
            caller_line: self.caller_line,
            caller_fn: self.caller_fn,
            print: self.print,
            attrs: self.attrs.add_attr(name, value),
        }
    }

    /// Finalize the event: the log record line exactly when the decision at
    /// construction was to emit, and no output at all otherwise, whatever
    /// the attributes hold. Consumes the event, so it is emitted at most
    /// once.
    pub fn emit(self) -> (r: Option<String>)
        requires
            ts_in_range(self.time_ms as int),
        ensures
            self.print ==> (r matches Some(l) && l@ == log_line(
                self.time_ms as int,
                self.span,
                self.level,
                self.msg@,
                self.caller_file@,
                self.caller_line,
                opt_view(self.caller_fn),
                self.attrs@,
            )),
            !self.print ==> r is None,
    {
        if !self.print {
            return None;
        }
        let ts = match rfc3339_millis(self.time_ms) {
            Some(t) => t,
            None => {
                proof {
                    assert(false);
                }
                String::new()
            },
        };
        let fn_path: &str = match &self.caller_fn {
            Some(s) => s.as_str(),
            None => "",
        };
        proof {
            reveal_strlit("");
            assert(""@ =~= Seq::<char>::empty());
            reveal_strlit(":");
            assert(":"@ =~= seq![':']);
        }
        let mut out = String::from_str("{\"timestamp\":\"");
        out.append(ts.as_str());
        out.append("\",\"kind\":\"log\",\"span\":");
        out.append(u64_string(self.span).as_str());
        out.append(",\"level\":\"");
        out.append(self.level.as_str());
        out.append("\",\"message\":");
        out.append(json_quote(self.msg.as_str()).as_str());
        out.append(",\"caller\":\"");
        out.append(trim_src_path(self.caller_file.as_str()));
        out.append(":");
        out.append(u64_string(self.caller_line as u64).as_str());
        out.append("\",\"caller_fn\":");
        out.append(json_quote(trim_fn_path(fn_path)).as_str());
        out.append(",\"attrs\":");
        out.append(self.attrs.serialize().as_str());
        out.append("}");
        proof {
            assert(out@ =~= log_line(
                self.time_ms as int,
                self.span,
                self.level,
                self.msg@,
                self.caller_file@,
                self.caller_line,
                opt_view(self.caller_fn),
                self.attrs@,
            ));
        }
        Some(out)
    }
}

} // verus!
