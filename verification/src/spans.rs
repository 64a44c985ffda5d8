//! The span context stack: a per-execution-context stack of frames tracking
//! nesting, identity, the inherited minimum level, and the last emitted
//! ancestor id. Owns the emit/suppress decision, the parent and depth
//! bookkeeping, and the enter/exit record lines.
use vstd::prelude::*;
use vstd::string::{StrSliceExecFns, StringExecFns};

use crate::attrs::{attrs_object, AttrList, AttrValue};
use crate::json::{json_quote, json_string_of};
use crate::level::LogLevel;
use crate::numfmt::{dec_nat, u64_string};
use crate::paths::{trim_fn_path, trim_fn_spec, trim_src_path, trim_src_spec};
use crate::timefmt::{duration_micros, duration_of, rfc3339_millis, rfc3339_of, ts_in_range};

verus! {

/// Bookkeeping for one active span, held on the context stack.
#[derive(Clone, Copy, Debug)]
pub struct StackEntry {
    /// The span's unique id.
    pub id: u64,
    /// Id of the nearest ancestor (or self) whose enter record was emitted.
    pub last_print_id: u64,
    /// Minimum level required for emission while this frame is active;
    /// `None` disables emission for the subtree.
    pub min_level: Option<LogLevel>,
}

/// The synthetic root frame: id 0, nothing emitted yet, everything enabled.
pub open spec fn root_frame() -> StackEntry {
    StackEntry { id: 0, last_print_id: 0, min_level: Some(LogLevel::Trace) }
}

/// One execution context: its never-empty stack of frames and the next
/// span id. Ids are assigned monotonically, so they are unique within the
/// context.
pub struct TraceContext {
    pub frames: Vec<StackEntry>,
    pub next_id: u64,
}

/// The emission decision: emit exactly when a minimum level is set and it
/// is at or below the record's level.
pub open spec fn decide_emit(min: Option<LogLevel>, level: LogLevel) -> bool {
    match min {
        Some(m) => m.severity() <= level.severity(),
        None => false,
    }
}

/// The frame pushed when a span with this id and level is opened under
/// `top`: it inherits the minimum level, and records itself as last emitted
/// ancestor exactly when its enter record is emitted.
pub open spec fn opened_frame(top: StackEntry, id: u64, level: LogLevel) -> StackEntry {
    StackEntry {
        id,
        last_print_id: if decide_emit(top.min_level, level) {
            id
        } else {
            top.last_print_id
        },
        min_level: top.min_level,
    }
}

impl TraceContext {
    /// The current (innermost) frame.
    pub open spec fn top_spec(self) -> StackEntry {
        self.frames@.last()
    }

    /// Well-formedness: the stack is never empty and starts at the root
    /// frame (whose minimum level stays mutable); ids grow strictly up the
    /// stack and stay below the counter; each frame's last emitted id is
    /// its own id or its parent's.
    pub open spec fn wf(self) -> bool {
        &&& self.frames@.len() >= 1
        &&& self.frames@[0].id == 0
        &&& self.frames@[0].last_print_id == 0
        &&& forall|i: int| 0 <= i < self.frames@.len() ==> self.frames@[i].id < self.next_id
        &&& forall|i: int, j: int|
            0 <= i < j < self.frames@.len() ==> self.frames@[i].id < self.frames@[j].id
        &&& forall|i: int|
            1 <= i < self.frames@.len() ==> (self.frames@[i].last_print_id == self.frames@[i].id
                || self.frames@[i].last_print_id == self.frames@[i - 1].last_print_id)
    }

    /// A fresh context: only the root frame, ids starting at 1.
    pub fn new() -> (r: TraceContext)
        ensures
            r.wf(),
            r.frames@.len() == 1,
            r.frames@[0] == root_frame(),
            r.next_id == 1,
    {
        let mut frames: Vec<StackEntry> = Vec::new();
        frames.push(StackEntry { id: 0, last_print_id: 0, min_level: Some(LogLevel::Trace) });
        TraceContext { frames, next_id: 1 }
    }

    /// How many spans are active (the root frame not counted).
    pub fn depth(&self) -> (d: usize)
        requires
            self.wf(),
        ensures
            d == self.frames@.len() - 1,
    {
        self.frames.len() - 1
    }
}

/// Set the current scope's minimum emission level. Affects only the
/// innermost active frame and spans opened under it afterwards.
pub fn set_min_log_level(ctx: &mut TraceContext, level: LogLevel)
    requires
        old(ctx).wf(),
    ensures
        final(ctx).wf(),
        final(ctx).next_id == old(ctx).next_id,
        final(ctx).frames@ == old(ctx).frames@.update(
            old(ctx).frames@.len() - 1,
            StackEntry { min_level: Some(level), ..old(ctx).top_spec() },
        ),
{
    let n = ctx.frames.len();
    let mut e = ctx.frames[n - 1];
    e.min_level = Some(level);
    ctx.frames.set(n - 1, e);
}

/// Disable emission for the current scope and spans opened under it
/// afterwards.
pub fn disable_logging(ctx: &mut TraceContext)
    requires
        old(ctx).wf(),
    ensures
        final(ctx).wf(),
        final(ctx).next_id == old(ctx).next_id,
        final(ctx).frames@ == old(ctx).frames@.update(
            old(ctx).frames@.len() - 1,
            StackEntry { min_level: None, ..old(ctx).top_spec() },
        ),
{
    let n = ctx.frames.len();
    let mut e = ctx.frames[n - 1];
    e.min_level = None;
    ctx.frames.set(n - 1, e);
}

/// The characters of an optional string, empty when absent.
pub open spec fn opt_view(s: Option<String>) -> Seq<char> {
    match s {
        Some(t) => t@,
        None => Seq::empty(),
    }
}

/// The span-enter record line for these fields.
pub open spec fn enter_line(
    ts_ms: int,
    id: u64,
    parent: u64,
    depth: u64,
    level: LogLevel,
    name: Seq<char>,
    caller_file: Seq<char>,
    caller_line: u32,
    caller_fn: Seq<char>,
    attrs: Seq<(Seq<char>, Seq<char>)>,
) -> Seq<char> {
    "{\"timestamp\":\""@ + rfc3339_of(ts_ms) + "\",\"kind\":\"span\",\"id\":"@ + dec_nat(
        id as nat,
    ) + ",\"parent\":"@ + dec_nat(parent as nat) + ",\"depth\":"@ + dec_nat(depth as nat)
        + ",\"level\":\""@ + level.text() + "\",\"name\":"@ + json_string_of(name)
        + ",\"caller\":\""@ + trim_src_spec(caller_file) + seq![':'] + dec_nat(caller_line as nat)
        + "\",\"caller_fn\":"@ + json_string_of(trim_fn_spec(caller_fn)) + ",\"attrs\":"@
        + attrs_object(attrs) + "}"@
}

/// The span-exit record line for these fields.
pub open spec fn exit_line(
    ts_ms: int,
    id: u64,
    parent: u64,
    depth: u64,
    name: Seq<char>,
    duration_us: u64,
) -> Seq<char> {
    "{\"timestamp\":\""@ + rfc3339_of(ts_ms) + "\",\"kind\":\"exit\",\"id\":"@ + dec_nat(
        id as nat,
    ) + ",\"parent\":"@ + dec_nat(parent as nat) + ",\"depth\":"@ + dec_nat(depth as nat)
        + ",\"name\":"@ + json_string_of(name) + ",\"duration_us\":"@ + dec_nat(duration_us as nat)
        + "}"@
}

/// Builder for a span: level, name and caller metadata set up front,
/// attributes appended one by one, then finalized against a context.
pub struct SpanBuilder {
    pub level: LogLevel,
    pub name: String,
    pub caller_fn: Option<String>,
    pub caller_file: String,
    pub caller_line: u32,
    pub attrs: AttrList,
}

/// A live span handle: identity and descriptive fields fixed at open time,
/// and the emission decision fixed for its whole life.
pub struct Span {
    pub id: u64,
    pub parent_id: u64,
    pub depth: u64,
    pub start_us: u64,
    pub level: LogLevel,
    pub name: String,
    pub caller_fn: Option<String>,
    pub caller_file: String,
    pub caller_line: u32,
    pub printed: bool,
}

/// How closing a span against a context can violate stack discipline, in
/// the order the checks are made.
#[derive(Clone, Copy, Debug, PartialEq, Eq, Structural)]
pub enum StackViolation {
    /// The top frame is not the span being closed.
    WrongSpan,
    /// Only the root frame is left, so the span has no parent frame.
    MissingParent,
    /// The parent frame's last emitted id is not the span's parent id.
    WrongParent,
    /// The stack length after popping would not equal the span's depth.
    WrongDepth,
}

/// The stack-discipline violation that closing `span` against `pre` would
/// detect, if any.
pub open spec fn close_violation(pre: TraceContext, span: Span) -> Option<StackViolation> {
    let n = pre.frames@.len();
    if pre.top_spec().id != span.id {
        Some(StackViolation::WrongSpan)
    } else if n < 2 {
        Some(StackViolation::MissingParent)
    } else if pre.frames@[n - 2].last_print_id != span.parent_id {
        Some(StackViolation::WrongParent)
    } else if n - 1 != span.depth {
        Some(StackViolation::WrongDepth)
    } else {
        None
    }
}

impl SpanBuilder {
    /// A builder for a span with this level, name, and caller source
    /// location; no enclosing-function name and no attributes yet.
    pub fn new(level: LogLevel, name: &str, caller_file: &str, caller_line: u32) -> (b: SpanBuilder)
        ensures
            b.level == level,
            b.name@ == name@,
            b.caller_fn is None,
            b.caller_file@ == caller_file@,
            b.caller_line == caller_line,
            b.attrs@ == Seq::<(Seq<char>, Seq<char>)>::empty(),
    {
        SpanBuilder {
            level,
            name: String::from_str(name),
            caller_fn: None,
            caller_file: String::from_str(caller_file),
            caller_line,
            attrs: AttrList::new(),
        }
    }

    /// The builder with `(name, value)` appended to its attributes; all
    /// other fields unchanged.
    pub fn attr(self, name: &str, value: AttrValue) -> (r: SpanBuilder)
        ensures
            r.level == self.level,
            r.name@ == self.name@,
            r.caller_fn == self.caller_fn,
            r.caller_file@ == self.caller_file@,
            r.caller_line == self.caller_line,
            r.attrs@ == self.attrs@.push((name@, crate::attrs::encode_value(value))),
    {
        SpanBuilder {
            level: self.level,
            name: self.name,
            caller_fn: self.caller_fn,
            caller_file: self.caller_file,
            caller_line: self.caller_line,
            attrs: self.attrs.add_attr(name, value),
        }
    }

    /// The enter record line for this builder's fields.
    fn render_enter(&self, id: u64, parent: u64, depth: u64, now_ms: i64) -> (r: String)
        requires
            ts_in_range(now_ms as int),
        ensures
            r@ == enter_line(
                now_ms as int,
                id,
                parent,
                depth,
                self.level,
                self.name@,
                self.caller_file@,
                self.caller_line,
                opt_view(self.caller_fn),
                self.attrs@,
            ),
    {
        let ts = match rfc3339_millis(now_ms) {
            Some(t) => t,
            None => {
                proof {
                    assert(false);
                }
                String::new()
            },
        };
        let fn_path: &str = match &self.caller_fn {
            Some(s) => s.as_str(),
            None => "",
        };
        proof {
            reveal_strlit("");
            assert(""@ =~= Seq::<char>::empty());
            reveal_strlit(":");
            assert(":"@ =~= seq![':']);
        }
        let mut out = String::from_str("{\"timestamp\":\"");
        out.append(ts.as_str());
        out.append("\",\"kind\":\"span\",\"id\":");
        out.append(u64_string(id).as_str());
        out.append(",\"parent\":");
        out.append(u64_string(parent).as_str());
        out.append(",\"depth\":");
        out.append(u64_string(depth).as_str());
        out.append(",\"level\":\"");
        out.append(self.level.as_str());
        out.append("\",\"name\":");
        out.append(json_quote(self.name.as_str()).as_str());
        out.append(",\"caller\":\"");
        out.append(trim_src_path(self.caller_file.as_str()));
        out.append(":");
        out.append(u64_string(self.caller_line as u64).as_str());
        out.append("\",\"caller_fn\":");
        out.append(json_quote(trim_fn_path(fn_path)).as_str());
        out.append(",\"attrs\":");
        out.append(self.attrs.serialize().as_str());
        out.append("}");
        proof {
            assert(out@ =~= enter_line(
                now_ms as int,
                id,
                parent,
                depth,
                self.level,
                self.name@,
                self.caller_file@,
                self.caller_line,
                opt_view(self.caller_fn),
                self.attrs@,
            ));
        }
        out
    }

    /// Open the span: allocate the next id, fix the emission decision from
    /// the current frame's minimum level, push the new frame, and return
    /// the handle together with the enter record line exactly when the
    /// decision was to emit.
    pub fn build(self, ctx: &mut TraceContext, now_ms: i64, start_us: u64) -> (r: (
        Span,
        Option<String>,
    ))
        requires
            old(ctx).wf(),
            old(ctx).next_id < u64::MAX,
            ts_in_range(now_ms as int),
        ensures
            final(ctx).wf(),
            final(ctx).next_id == old(ctx).next_id + 1,
            final(ctx).frames@ == old(ctx).frames@.push(
                opened_frame(old(ctx).top_spec(), old(ctx).next_id, self.level),
            ),
            r.0.id == old(ctx).next_id,
            r.0.parent_id == old(ctx).top_spec().last_print_id,
            r.0.depth == old(ctx).frames@.len(),
            r.0.printed == decide_emit(old(ctx).top_spec().min_level, self.level),
            r.0.start_us == start_us,
            r.0.level == self.level,
            r.0.name@ == self.name@,
            r.0.caller_fn == self.caller_fn,
            r.0.caller_file@ == self.caller_file@,
            r.0.caller_line == self.caller_line,
            r.0.printed ==> (r.1 matches Some(l) && l@ == enter_line(
                now_ms as int,
                r.0.id,
                r.0.parent_id,
                r.0.depth,
                self.level,
                self.name@,
                self.caller_file@,
                self.caller_line,
                opt_view(self.caller_fn),
                self.attrs@,
            )),
            !r.0.printed ==> r.1 is None,
    {
        let id = ctx.next_id;
        ctx.next_id = ctx.next_id + 1;
        let n = ctx.frames.len();
        let top = ctx.frames[n - 1];
        let printed = match top.min_level {
            Some(m) => m.le(self.level),
            None => false,
        };
        let last_print_id = if printed {
            id
        } else {
            top.last_print_id
        };
        ctx.frames.push(StackEntry { id, last_print_id, min_level: top.min_level });
        let line = if printed {
            Some(self.render_enter(id, top.last_print_id, n as u64, now_ms))
        } else {
            None
        };
        let span = Span {
            id,
            parent_id: top.last_print_id,
            depth: n as u64,
            start_us,
            level: self.level,
            name: self.name,
            caller_fn: self.caller_fn,
            caller_file: self.caller_file,
            caller_line: self.caller_line,
            printed,
        };
        proof {
            assert(ctx.frames@ =~= old(ctx).frames@.push(
                opened_frame(old(ctx).top_spec(), old(ctx).next_id, self.level),
            ));
            assert forall|i: int, j: int|
                0 <= i < j < ctx.frames@.len() implies ctx.frames@[i].id < ctx.frames@[j].id by {
                if j < ctx.frames@.len() - 1 {
                    assert(old(ctx).frames@[i].id < old(ctx).frames@[j].id);
                }
            }
        }
        (span, line)
    }
}

impl Span {
    /// The exit record line for this span closed at this time.
    fn render_exit(&self, now_ms: i64, end_us: u64) -> (r: String)
        requires
            ts_in_range(now_ms as int),
        ensures
            r@ == exit_line(
                now_ms as int,
                self.id,
                self.parent_id,
                self.depth,
                self.name@,
                duration_of(self.start_us, end_us),
            ),
    {
        let ts = match rfc3339_millis(now_ms) {
            Some(t) => t,
            None => {
                proof {
                    assert(false);
                }
                String::new()
            },
        };
        let mut out = String::from_str("{\"timestamp\":\"");
        out.append(ts.as_str());
        out.append("\",\"kind\":\"exit\",\"id\":");
        out.append(u64_string(self.id).as_str());
        out.append(",\"parent\":");
        out.append(u64_string(self.parent_id).as_str());
        out.append(",\"depth\":");
        out.append(u64_string(self.depth).as_str());
        out.append(",\"name\":");
        out.append(json_quote(self.name.as_str()).as_str());
        out.append(",\"duration_us\":");
        out.append(u64_string(duration_micros(self.start_us, end_us)).as_str());
        out.append("}");
        proof {
            assert(out@ =~= exit_line(
                now_ms as int,
                self.id,
                self.parent_id,
                self.depth,
                self.name@,
                duration_of(self.start_us, end_us),
            ));
        }
        out
    }

    /// Close the span: verify strict stack discipline against the context
    /// and pop the frame, returning the exit record line exactly when the
    /// span's enter record was emitted. A violation is reported without
    /// touching the stack; it is a programming error, and the caller is
    /// expected to treat it as fatal.
    #[verifier::rlimit(100)]
    #[verifier::spinoff_prover]
    pub fn close(self, ctx: &mut TraceContext, now_ms: i64, end_us: u64) -> (r: Result<
        Option<String>,
        StackViolation,
    >)
        requires
            old(ctx).wf(),
            ts_in_range(now_ms as int),
        ensures
            match close_violation(*old(ctx), self) {
                Some(v) => r == Err::<Option<String>, StackViolation>(v) && final(ctx).frames@
                    == old(ctx).frames@ && final(ctx).next_id == old(ctx).next_id,
                None => {
                    &&& final(ctx).wf()
                    &&& final(ctx).frames@ == old(ctx).frames@.drop_last()
                    &&& final(ctx).next_id == old(ctx).next_id
                    &&& r matches Ok(line) && (if self.printed {
                        line matches Some(l) && l@ == exit_line(
                            now_ms as int,
                            self.id,
                            self.parent_id,
                            self.depth,
                            self.name@,
                            duration_of(self.start_us, end_us),
                        )
                    } else {
                        line is None
                    })
                },
            },
    {
        let n = ctx.frames.len();
        let top = ctx.frames[n - 1];
        if top.id != self.id {
            return Err(StackViolation::WrongSpan);
        }
        if n < 2 {
            return Err(StackViolation::MissingParent);
        }
        let parent = ctx.frames[n - 2];
        if parent.last_print_id != self.parent_id {
            return Err(StackViolation::WrongParent);
        }
        if (n - 1) as u64 != self.depth {
            return Err(StackViolation::WrongDepth);
        }
        let _ = ctx.frames.pop();
        proof {
            assert(ctx.frames@ =~= old(ctx).frames@.drop_last());
        }
        if self.printed {
            Ok(Some(self.render_exit(now_ms, end_us)))
        } else {
            Ok(None)
        }
    }

    /// The span's unique id.
    pub fn id(&self) -> (r: u64)
        ensures
            r == self.id,
    {
        self.id
    }

    /// The monotonic microsecond instant the span was opened at.
    pub fn time(&self) -> (r: u64)
        ensures
            r == self.start_us,
    {
        self.start_us
    }

    /// The span's severity level.
    pub fn level(&self) -> (r: LogLevel)
        ensures
            r == self.level,
    {
        self.level
    }

    /// The span's name.
    pub fn name(&self) -> (r: &str)
        ensures
            r@ == self.name@,
    {
        self.name.as_str()
    }

    /// The enclosing-function name the caller supplied, if any.
    pub fn caller_fn(&self) -> (r: Option<&str>)
        ensures
            match r {
                Some(s) => self.caller_fn matches Some(t) && s@ == t@,
                None => self.caller_fn is None,
            },
    {
        match &self.caller_fn {
            Some(s) => Some(s.as_str()),
            None => None,
        }
    }

    /// The caller's source file.
    pub fn caller_file(&self) -> (r: &str)
        ensures
            r@ == self.caller_file@,
    {
        self.caller_file.as_str()
    }

    /// The caller's source line.
    pub fn caller_lineno(&self) -> (r: u32)
        ensures
            r == self.caller_line,
    {
        self.caller_line
    }
}

/// The identity a span handle captures when it is opened from `pre` at
/// this level: the id the counter held, the parent id observed on the top
/// frame, the stack length as depth, and the emission decision made from
/// the top frame's minimum level.
pub open spec fn span_opened_from(pre: TraceContext, span: Span, level: LogLevel) -> bool {
    &&& span.id == pre.next_id
    &&& span.parent_id == pre.top_spec().last_print_id
    &&& span.depth == pre.frames@.len()
    &&& span.printed == decide_emit(pre.top_spec().min_level, level)
}

/// The context state right after that open: the new frame pushed, the
/// counter advanced.
pub open spec fn ctx_after_open(pre: TraceContext, post: TraceContext, level: LogLevel) -> bool {
    &&& post.frames@ == pre.frames@.push(opened_frame(pre.top_spec(), pre.next_id, level))
    &&& post.next_id == pre.next_id + 1
}

/// Stack discipline holds across a matching open and close: a span opened
/// from a context and closed against the resulting context passes every
/// discipline check, and its exit record reports exactly the parent id and
/// depth captured at open time — the exit line carries the last emitted
/// ancestor id and stack length the open observed, whatever happens at
/// close time.
pub proof fn lemma_open_close_disciplined(
    pre: TraceContext,
    post: TraceContext,
    span: Span,
    level: LogLevel,
    ts_ms: int,
    duration_us: u64,
)
    requires
        pre.wf(),
        span_opened_from(pre, span, level),
        ctx_after_open(pre, post, level),
    ensures
        close_violation(post, span) is None,
        exit_line(ts_ms, span.id, span.parent_id, span.depth, span.name@, duration_us)
            == exit_line(
            ts_ms,
            span.id,
            pre.top_spec().last_print_id,
            (pre.frames@.len() as u64),
            span.name@,
            duration_us,
        ),
{
    assert(post.frames@.len() == pre.frames@.len() + 1);
    assert(post.top_spec() == opened_frame(pre.top_spec(), pre.next_id, level));
    assert(post.frames@[post.frames@.len() - 2] == pre.frames@.last());
}

/// The level cascade: a newly opened frame inherits its minimum level from
/// the frame below it, and when the open is suppressed the new frame passes
/// its parent's last emitted ancestor through unchanged, so descendants of
/// a suppressed span still chain to the nearest emitted ancestor.
pub proof fn lemma_suppressed_passthrough(top: StackEntry, id: u64, level: LogLevel)
    ensures
        opened_frame(top, id, level).min_level == top.min_level,
        !decide_emit(top.min_level, level) ==> opened_frame(top, id, level).last_print_id
            == top.last_print_id,
        decide_emit(top.min_level, level) ==> opened_frame(top, id, level).last_print_id == id,
{
}

/// In a well-formed context every frame's last emitted ancestor id is the
/// id of that frame or of one of its ancestors (the root's id being 0), so
/// the parent reported for a record is always an id that exists on the
/// stack below or at it.
pub proof fn lemma_last_print_id_is_ancestor(ctx: TraceContext, i: int)
    requires
        ctx.wf(),
        0 <= i < ctx.frames@.len(),
    ensures
        exists|j: int|
            0 <= j <= i && ctx.frames@[j].id == ctx.frames@[i].last_print_id,
    decreases i,
{
    if i == 0 {
        assert(ctx.frames@[0].id == ctx.frames@[0].last_print_id);
    } else {
        if ctx.frames@[i].last_print_id == ctx.frames@[i].id {
        } else {
            lemma_last_print_id_is_ancestor(ctx, i - 1);
        }
    }
}

} // verus!
