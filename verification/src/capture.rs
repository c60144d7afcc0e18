//! Failure capture: stack frames, symbolization and diagnostic records.

use crate::config::{Config, RuntimeInfo, RuntimeInfoView};
use crate::context::{Context, ContextValue, ContextValueView};
use crate::fingerprint::{calculate_fingerprint, fingerprint_of};
use crate::machine::{is_utc_time, new_uuid, now_rfc3339};
use crate::sequences::{capped, lemma_capped_filter_settled, lemma_filter_next, lemma_filter_none};
use crate::text::{
    contains, contains_seq, file_name_index, file_name_of, last_segment, last_segment_start,
    starts_with, to_chars,
};
use vstd::prelude::*;
use vstd::string::*;

verus! {

/// A single stack frame.
#[derive(Clone, Debug)]
pub struct StackFrame {
    pub method_name: String,
    pub file_name: Option<String>,
    pub file_path: Option<String>,
    pub line_number: Option<u32>,
    pub column_number: Option<u32>,
    pub is_native: bool,
    pub source_available: bool,
}

/// What a stack frame says, as plain text and numbers.
pub struct StackFrameView {
    pub method_name: Seq<char>,
    pub file_name: Option<Seq<char>>,
    pub file_path: Option<Seq<char>>,
    pub line_number: Option<u32>,
    pub column_number: Option<u32>,
    pub is_native: bool,
    pub source_available: bool,
}

/// The characters of an optional text.
pub open spec fn text_view(text: Option<String>) -> Option<Seq<char>> {
    match text {
        Some(s) => Some(s@),
        None => None,
    }
}

impl View for StackFrame {
    type V = StackFrameView;

    open spec fn view(&self) -> StackFrameView {
        StackFrameView {
            method_name: self.method_name@,
            file_name: text_view(self.file_name),
            file_path: text_view(self.file_path),
            line_number: self.line_number,
            column_number: self.column_number,
            is_native: self.is_native,
            source_available: self.source_available,
        }
    }
}

/// What each frame of a stack says, most recent call first.
pub open spec fn frame_views(frames: Seq<StackFrame>) -> Seq<StackFrameView> {
    frames.map_values(|f: StackFrame| f@)
}

/// One resolved symbol of the call stack, as the stack walker reports it.
#[derive(Clone, Debug)]
pub struct RawSymbol {
    pub name: Option<String>,
    pub file_path: Option<String>,
    pub line_number: Option<u32>,
    pub column_number: Option<u32>,
}

/// What a resolved symbol says, as plain text and numbers.
pub struct RawSymbolView {
    pub name: Option<Seq<char>>,
    pub file_path: Option<Seq<char>>,
    pub line_number: Option<u32>,
    pub column_number: Option<u32>,
}

impl View for RawSymbol {
    type V = RawSymbolView;

    open spec fn view(&self) -> RawSymbolView {
        RawSymbolView {
            name: text_view(self.name),
            file_path: text_view(self.file_path),
            line_number: self.line_number,
            column_number: self.column_number,
        }
    }
}

/// What each symbol of a walk says, most recent call first.
pub open spec fn symbol_views(symbols: Seq<RawSymbol>) -> Seq<RawSymbolView> {
    symbols.map_values(|s: RawSymbol| s@)
}

/// Longest stack trace that a record carries.
pub const MAX_STACK_FRAMES: usize = 50;

/// The qualified name of a symbol, or a placeholder when it has none.
pub open spec fn qualified_name(symbol: RawSymbolView) -> Seq<char> {
    match symbol.name {
        Some(name) => name,
        None => "<unknown>"@,
    }
}

/// Names of the runtime and of the capture machinery itself, which never
/// appear in a stack trace.
pub open spec fn is_internal_name(name: Seq<char>) -> bool {
    ||| "std::"@.is_prefix_of(name)
    ||| "core::"@.is_prefix_of(name)
    ||| "backtrace::"@.is_prefix_of(name)
    ||| "aivory_monitor::capture"@.is_prefix_of(name)
}

/// Whether a symbol appears in the stack trace.
pub open spec fn is_reported(symbol: RawSymbolView) -> bool {
    !is_internal_name(qualified_name(symbol))
}

/// Selects the symbols that appear in the stack trace.
pub open spec fn reported() -> spec_fn(RawSymbolView) -> bool {
    |symbol: RawSymbolView| is_reported(symbol)
}

/// A frame is native when its file lies under a toolchain or package cache
/// directory, or when no file could be resolved.
pub open spec fn is_native_path(path: Option<Seq<char>>) -> bool {
    match path {
        Some(p) => contains_seq(p, ".rustup"@) || contains_seq(p, "registry"@),
        None => true,
    }
}

/// The file name of an optional path.
pub open spec fn file_name_view(path: Option<Seq<char>>) -> Option<Seq<char>> {
    match path {
        Some(p) => Some(file_name_of(p)),
        None => None,
    }
}

/// The frame that describes a symbol.
pub open spec fn frame_of(symbol: RawSymbolView) -> StackFrameView {
    StackFrameView {
        method_name: last_segment(qualified_name(symbol), "::"@),
        file_name: file_name_view(symbol.file_path),
        file_path: symbol.file_path,
        line_number: symbol.line_number,
        column_number: symbol.column_number,
        is_native: is_native_path(symbol.file_path),
        source_available: !is_native_path(symbol.file_path) && symbol.file_path is Some,
    }
}

/// The stack trace of a walk: the frames of its first fifty reported
/// symbols, in the order of the walk.
pub open spec fn symbolized(symbols: Seq<RawSymbolView>) -> Seq<StackFrameView> {
    capped(symbols.filter(reported()), MAX_STACK_FRAMES as nat).map_values(
        |symbol: RawSymbolView| frame_of(symbol),
    )
}

/// What holds of every frame that symbolization produces.
pub open spec fn frame_consistent(frame: StackFrameView) -> bool {
    &&& frame.source_available == (!frame.is_native && frame.file_path is Some)
    &&& frame.file_path is None ==> frame.is_native
    &&& frame.file_name is Some == frame.file_path is Some
}

/// A stack trace never exceeds fifty frames, holds exactly fifty when the
/// walk reports at least that many symbols, keeps the order of the walk, and
/// each of its frames is consistent.
pub proof fn symbolized_is_bounded(symbols: Seq<RawSymbolView>)
    ensures
        symbolized(symbols).len() <= MAX_STACK_FRAMES,
        symbols.filter(reported()).len() >= MAX_STACK_FRAMES ==> symbolized(symbols).len()
            == MAX_STACK_FRAMES,
        symbols.filter(reported()).len() < MAX_STACK_FRAMES ==> symbolized(symbols).len()
            == symbols.filter(reported()).len(),
        forall|i: int|
            0 <= i < symbolized(symbols).len() ==> #[trigger] symbolized(symbols)[i] == frame_of(
                symbols.filter(reported())[i],
            ),
        forall|i: int|
            0 <= i < symbolized(symbols).len() ==> frame_consistent(
                #[trigger] symbolized(symbols)[i],
            ),
{
}

/// Strips module qualification from a function name: what follows the last
/// `::` separator.
pub fn extract_function_name(full_name: &str) -> (name: String)
    ensures
        name@ == last_segment(full_name@, "::"@),
{
    let chars = to_chars(full_name);
    let separator = to_chars("::");
    let start = last_segment_start(chars.as_slice(), separator.as_slice());
    let tail = full_name.substring_char(start, chars.len());
    String::from_str(tail)
}

/// Whether a qualified name belongs to the runtime or to the capture
/// machinery.
pub fn is_internal(name: &str) -> (internal: bool)
    ensures
        internal == is_internal_name(name@),
{
    let chars = to_chars(name);
    starts_with(chars.as_slice(), to_chars("std::").as_slice()) || starts_with(
        chars.as_slice(),
        to_chars("core::").as_slice(),
    ) || starts_with(chars.as_slice(), to_chars("backtrace::").as_slice()) || starts_with(
        chars.as_slice(),
        to_chars("aivory_monitor::capture").as_slice(),
    )
}

/// Whether a resolved path, if any, marks its frame as native.
pub fn is_native_file(path: &Option<String>) -> (native: bool)
    ensures
        native == is_native_path(text_view(*path)),
{
    match path {
        Some(p) => {
            let chars = to_chars(p.as_str());
            contains(chars.as_slice(), to_chars(".rustup").as_slice()) || contains(
                chars.as_slice(),
                to_chars("registry").as_slice(),
            )
        },
        None => true,
    }
}

/// The final component of a path.
pub fn file_name(path: &str) -> (name: String)
    ensures
        name@ == file_name_of(path@),
{
    let chars = to_chars(path);
    let start = file_name_index(chars.as_slice());
    let tail = path.substring_char(start, chars.len());
    String::from_str(tail)
}

/// Describes one symbol as a stack frame, or reports that the symbol is
/// left out of stack traces.
pub fn frame_from_symbol(symbol: &RawSymbol) -> (frame: Option<StackFrame>)
    ensures
        match frame {
            Some(f) => is_reported(symbol@) && f@ == frame_of(symbol@),
            None => !is_reported(symbol@),
        },
{
    let full_name = match &symbol.name {
        Some(name) => name.clone(),
        None => String::from_str("<unknown>"),
    };
    if is_internal(full_name.as_str()) {
        return None;
    }
    let (file_path, file_name) = match &symbol.file_path {
        Some(path) => (Some(path.clone()), Some(file_name(path.as_str()))),
        None => (None, None),
    };
    let is_native = is_native_file(&symbol.file_path);
    let source_available = !is_native && file_path.is_some();
    Some(
        StackFrame {
            method_name: extract_function_name(full_name.as_str()),
            file_name,
            file_path,
            line_number: symbol.line_number,
            column_number: symbol.column_number,
            is_native,
            source_available,
        },
    )
}

/// Turns the symbols of a stack walk into a stack trace: internal symbols
/// are dropped, and the trace ends once it holds fifty frames.
pub fn symbolize(symbols: &[RawSymbol]) -> (frames: Vec<StackFrame>)
    ensures
        frame_views(frames@) == symbolized(symbol_views(symbols@)),
        frames@.len() <= MAX_STACK_FRAMES,
{
    let ghost views = symbol_views(symbols@);
    let ghost describe = |symbol: RawSymbolView| frame_of(symbol);
    let mut frames: Vec<StackFrame> = Vec::new();
    let mut i: usize = 0;
    proof {
        lemma_filter_none(views, reported());
    }
    while i < symbols.len() && frames.len() < MAX_STACK_FRAMES
        invariant
            i <= symbols.len(),
            views == symbol_views(symbols@),
            describe == |symbol: RawSymbolView| frame_of(symbol),
            frames@.len() <= MAX_STACK_FRAMES,
            frame_views(frames@) == views.take(i as int).filter(reported()).map_values(describe),
        decreases symbols.len() - i,
    {
        let ghost before = views.take(i as int).filter(reported());
        proof {
            lemma_filter_next(views, reported(), i as int);
        }
        match frame_from_symbol(&symbols[i]) {
            Some(frame) => {
                frames.push(frame);
                proof {
                    assert(before.push(views[i as int]).map_values(describe) =~= before.map_values(
                        describe,
                    ).push(frame@));
                }
            },
            None => {},
        }
        i += 1;
    }
    proof {
        if frames@.len() >= MAX_STACK_FRAMES {
            lemma_capped_filter_settled(views, reported(), i as int, MAX_STACK_FRAMES as nat);
        } else {
            assert(views.take(i as int) =~= views);
        }
    }
    frames
}

/// The stack walker's capture of a call stack.
#[verifier::external_type_specification]
#[verifier::external_body]
pub struct ExBacktrace(backtrace::Backtrace);

/// One frame of a captured call stack.
#[verifier::external_type_specification]
#[verifier::external_body]
pub struct ExBacktraceFrame(backtrace::BacktraceFrame);

/// One symbol resolved for a frame of a captured call stack.
#[verifier::external_type_specification]
#[verifier::external_body]
pub struct ExBacktraceSymbol(backtrace::BacktraceSymbol);

/// The frames that a captured call stack holds, most recent call first.
pub uninterp spec fn captured_frames(walk: backtrace::Backtrace) -> Seq<
    backtrace::BacktraceFrame,
>;

/// The symbols that were resolved for a frame, innermost inlined function
/// first.
pub uninterp spec fn resolved_symbols(frame: backtrace::BacktraceFrame) -> Seq<
    backtrace::BacktraceSymbol,
>;

/// The qualified name that a symbol carries, as text.
pub uninterp spec fn resolved_name(symbol: backtrace::BacktraceSymbol) -> Option<Seq<char>>;

/// The source file that a symbol carries, as text.
pub uninterp spec fn resolved_file(symbol: backtrace::BacktraceSymbol) -> Option<Seq<char>>;

/// The source line that a symbol carries.
pub uninterp spec fn resolved_line(symbol: backtrace::BacktraceSymbol) -> Option<u32>;

/// The source column that a symbol carries.
pub uninterp spec fn resolved_column(symbol: backtrace::BacktraceSymbol) -> Option<u32>;

/// What a symbol of the stack walker says: its name, file, line and column,
/// each as the walker resolved it.
pub open spec fn resolved(symbol: backtrace::BacktraceSymbol) -> RawSymbolView {
    RawSymbolView {
        name: resolved_name(symbol),
        file_path: resolved_file(symbol),
        line_number: resolved_line(symbol),
        column_number: resolved_column(symbol),
    }
}

/// What the symbols of one frame say, innermost inlined function first.
pub open spec fn frame_listing(frame: backtrace::BacktraceFrame) -> Seq<RawSymbolView> {
    resolved_symbols(frame).map_values(|symbol: backtrace::BacktraceSymbol| resolved(symbol))
}

/// What the symbols of a run of frames say: the listing of each frame, one
/// after the other in the order of the frames.
pub open spec fn walk_listing(frames: Seq<backtrace::BacktraceFrame>) -> Seq<RawSymbolView>
    decreases frames.len(),
{
    if frames.len() == 0 {
        Seq::empty()
    } else {
        walk_listing(frames.drop_last()) + frame_listing(frames.last())
    }
}

/// The listing of one more frame is the listing so far followed by that of
/// the frame.
proof fn lemma_walk_listing_next(frames: Seq<backtrace::BacktraceFrame>, i: int)
    requires
        0 <= i < frames.len(),
    ensures
        walk_listing(frames.take(i + 1)) == walk_listing(frames.take(i)) + frame_listing(
            frames[i],
        ),
{
    assert(frames.take(i + 1).drop_last() =~= frames.take(i));
}

/// Calls `backtrace::Backtrace::new`: walks the stack of the calling thread
/// and resolves its symbols. Nothing is claimed of the result.
#[verifier::external_body]
fn walk_stack() -> (walk: backtrace::Backtrace) {
    backtrace::Backtrace::new()
}

/// Calls `backtrace::Backtrace::frames`.
/// Trusted: the result is the slice of frames that the walk holds, and so
/// depends on the walk alone.
#[verifier::external_body]
fn walk_frames(walk: &backtrace::Backtrace) -> (frames: &[backtrace::BacktraceFrame])
    ensures
        frames@ == captured_frames(*walk),
{
    walk.frames()
}

/// Calls `backtrace::BacktraceFrame::symbols`.
/// Trusted: the result is the slice of symbols that the frame holds, and so
/// depends on the frame alone.
#[verifier::external_body]
fn frame_symbols(frame: &backtrace::BacktraceFrame) -> (symbols: &[backtrace::BacktraceSymbol])
    ensures
        symbols@ == resolved_symbols(*frame),
{
    frame.symbols()
}

/// Calls `backtrace::BacktraceSymbol::name` and renders the name as text.
/// Trusted: the result is read from the symbol, and so depends on the
/// symbol alone.
#[verifier::external_body]
fn symbol_name(symbol: &backtrace::BacktraceSymbol) -> (name: Option<String>)
    ensures
        text_view(name) == resolved_name(*symbol),
{
    symbol.name().map(|name| name.to_string())
}

/// Calls `backtrace::BacktraceSymbol::filename` and renders the path as
/// text. Trusted: the result is read from the symbol, and so depends on the
/// symbol alone.
#[verifier::external_body]
fn symbol_file(symbol: &backtrace::BacktraceSymbol) -> (path: Option<String>)
    ensures
        text_view(path) == resolved_file(*symbol),
{
    symbol.filename().map(|path| path.to_string_lossy().to_string())
}

/// Calls `backtrace::BacktraceSymbol::lineno`.
/// Trusted: the result is read from the symbol, and so depends on the
/// symbol alone.
#[verifier::external_body]
fn symbol_line(symbol: &backtrace::BacktraceSymbol) -> (line: Option<u32>)
    ensures
        line == resolved_line(*symbol),
{
    symbol.lineno()
}

/// Calls `backtrace::BacktraceSymbol::colno`.
/// Trusted: the result is read from the symbol, and so depends on the
/// symbol alone.
#[verifier::external_body]
fn symbol_column(symbol: &backtrace::BacktraceSymbol) -> (column: Option<u32>)
    ensures
        column == resolved_column(*symbol),
{
    symbol.colno()
}

/// What the stack walker resolved for one symbol.
fn read_symbol(symbol: &backtrace::BacktraceSymbol) -> (raw: RawSymbol)
    ensures
        raw@ == resolved(*symbol),
{
    RawSymbol {
        name: symbol_name(symbol),
        file_path: symbol_file(symbol),
        line_number: symbol_line(symbol),
        column_number: symbol_column(symbol),
    }
}

/// Walks the call stack of the calling thread and lists its symbols, most
/// recent call first; the symbols inlined into one frame follow each other.
fn current_symbols() -> (symbols: Vec<RawSymbol>)
    ensures
        exists|walk: backtrace::Backtrace|
            symbol_views(symbols@) == walk_listing(#[trigger] captured_frames(walk)),
{
    let walk = walk_stack();
    let frames = walk_frames(&walk);
    let mut symbols: Vec<RawSymbol> = Vec::new();
    let mut i: usize = 0;
    while i < frames.len()
        invariant
            i <= frames.len(),
            symbol_views(symbols@) == walk_listing(frames@.take(i as int)),
        decreases frames.len() - i,
    {
        let inlined = frame_symbols(&frames[i]);
        let ghost listed = walk_listing(frames@.take(i as int));
        let mut j: usize = 0;
        while j < inlined.len()
            invariant
                j <= inlined.len(),
                i < frames.len(),
                inlined@ == resolved_symbols(frames@[i as int]),
                symbol_views(symbols@) == listed + frame_listing(frames@[i as int]).take(j as int),
            decreases inlined.len() - j,
        {
            let ghost listing = frame_listing(frames@[i as int]);
            let raw = read_symbol(&inlined[j]);
            symbols.push(raw);
            proof {
                assert((listed + listing.take(j as int)).push(raw@) =~= listed + listing.take(
                    j + 1,
                ));
            }
            j += 1;
        }
        proof {
            lemma_walk_listing_next(frames@, i as int);
        }
        i += 1;
    }
    assert(frames@.take(i as int) =~= frames@);
    symbols
}

/// Whether frames are the stack trace of a stack walk: the symbolization
/// of the symbols that some captured walk lists.
pub open spec fn is_stack_trace(frames: Seq<StackFrameView>) -> bool {
    exists|walk: backtrace::Backtrace|
        frames == symbolized(walk_listing(#[trigger] captured_frames(walk)))
}

/// The stack trace of the calling thread: at most fifty frames, most recent
/// call first, built from the symbols of a stack walk.
pub fn capture_stack_trace() -> (frames: Vec<StackFrame>)
    ensures
        frames@.len() <= MAX_STACK_FRAMES,
        is_stack_trace(frame_views(frames@)),
{
    let symbols = current_symbols();
    symbolize(symbols.as_slice())
}

/// A captured variable.
#[derive(Debug)]
pub struct Variable {
    pub name: String,
    pub var_type: String,
    pub value: String,
    pub is_null: bool,
    pub is_truncated: bool,
    pub children: Option<Vec<Variable>>,
    pub array_elements: Option<Vec<Variable>>,
    pub array_length: Option<usize>,
}

/// Captured exception data.
#[derive(Debug)]
pub struct ExceptionCapture {
    pub id: String,
    pub exception_type: String,
    pub message: String,
    pub fingerprint: String,
    pub stack_trace: Vec<StackFrame>,
    pub local_variables: Vec<Variable>,
    pub context: Context,
    pub captured_at: String,
    pub agent_id: String,
    pub environment: String,
    pub runtime_info: RuntimeInfo,
}

/// What a record says, as plain values.
pub struct ExceptionCaptureView {
    pub id: Seq<char>,
    pub exception_type: Seq<char>,
    pub message: Seq<char>,
    pub fingerprint: Seq<char>,
    pub stack_trace: Seq<StackFrameView>,
    pub local_variables: nat,
    pub context: Map<Seq<char>, ContextValueView>,
    pub captured_at: Seq<char>,
    pub agent_id: Seq<char>,
    pub environment: Seq<char>,
    pub runtime_info: RuntimeInfoView,
}

impl View for ExceptionCapture {
    type V = ExceptionCaptureView;

    open spec fn view(&self) -> ExceptionCaptureView {
        ExceptionCaptureView {
            id: self.id@,
            exception_type: self.exception_type@,
            message: self.message@,
            fingerprint: self.fingerprint@,
            stack_trace: frame_views(self.stack_trace@),
            local_variables: self.local_variables@.len(),
            context: self.context@,
            captured_at: self.captured_at@,
            agent_id: self.agent_id@,
            environment: self.environment@,
            runtime_info: self.runtime_info@,
        }
    }
}

/// Failure kind of a record that describes an abort.
pub const PANIC_KIND: &'static str = "panic";

/// Context key that marks a record as describing an abort.
pub const PANIC_KEY: &'static str = "panic";

/// Context key under which the origin of an abort is recorded.
pub const LOCATION_KEY: &'static str = "location";

/// The record that describes a failure, given everything that goes into it:
/// the fingerprint is that of the kind and the stack, no variable is
/// captured, and the provenance is copied from the configuration.
pub open spec fn record_of(
    id: Seq<char>,
    exception_type: Seq<char>,
    message: Seq<char>,
    stack_trace: Seq<StackFrameView>,
    context: Map<Seq<char>, ContextValueView>,
    captured_at: Seq<char>,
    agent_id: Seq<char>,
    environment: Seq<char>,
    runtime_info: RuntimeInfoView,
) -> ExceptionCaptureView {
    ExceptionCaptureView {
        id,
        exception_type,
        message,
        fingerprint: fingerprint_of(exception_type, stack_trace),
        stack_trace,
        local_variables: 0,
        context,
        captured_at,
        agent_id,
        environment,
        runtime_info,
    }
}

/// The context that a record of an abort starts with: the abort marker, and
/// the origin of the abort where it is known.
pub open spec fn panic_context(location: Option<Seq<char>>) -> Map<Seq<char>, ContextValueView> {
    let marked = Map::<Seq<char>, ContextValueView>::empty().insert(
        PANIC_KEY@,
        ContextValueView::Bool(true),
    );
    match location {
        Some(place) => marked.insert(LOCATION_KEY@, ContextValueView::Text(place)),
        None => marked,
    }
}

/// Length of a fingerprint: sixteen hexadecimal digits.
pub const FINGERPRINT_LENGTH: usize = 16;

/// What holds of every record that was captured just now, whatever the
/// machine answered: the identifier is a UUID text, the time is written for
/// the UTC zone, the stack trace is that of a stack walk and has at most
/// fifty frames, and the fingerprint has sixteen digits.
pub open spec fn freshly_captured(record: ExceptionCaptureView) -> bool {
    &&& record.id.len() == 36
    &&& is_utc_time(record.captured_at)
    &&& record.stack_trace.len() <= MAX_STACK_FRAMES
    &&& is_stack_trace(record.stack_trace)
    &&& record.fingerprint.len() == FINGERPRINT_LENGTH
}

/// Assembles a record from its parts and computes its fingerprint.
pub fn build_record(
    id: String,
    exception_type: String,
    message: String,
    stack_trace: Vec<StackFrame>,
    context: Context,
    captured_at: String,
    config: &Config,
) -> (record: ExceptionCapture)
    ensures
        record@ == record_of(
            id@,
            exception_type@,
            message@,
            frame_views(stack_trace@),
            context@,
            captured_at@,
            config@.agent_id,
            config@.environment,
            config@.runtime,
        ),
        record@.fingerprint.len() == FINGERPRINT_LENGTH,
{
    let fingerprint = calculate_fingerprint(exception_type.as_str(), stack_trace.as_slice());
    ExceptionCapture {
        id,
        exception_type,
        message,
        fingerprint,
        stack_trace,
        local_variables: Vec::new(),
        context,
        captured_at,
        agent_id: config.agent_id.clone(),
        environment: config.environment.clone(),
        runtime_info: config.runtime_info(),
    }
}

/// Captures an error with stack trace. `qualified_type` is the qualified name of
/// the error's type; the record's kind is its last segment. The identifier
/// and the time are fresh, the stack is that of the calling thread.
pub fn capture_error(qualified_type: &str, message: &str, config: &Config) -> (record:
    ExceptionCapture)
    ensures
        record@ == record_of(
            record@.id,
            last_segment(qualified_type@, "::"@),
            message@,
            record@.stack_trace,
            Map::empty(),
            record@.captured_at,
            config@.agent_id,
            config@.environment,
            config@.runtime,
        ),
        freshly_captured(record@),
{
    let stack_trace = capture_stack_trace();
    let exception_type = extract_function_name(qualified_type);
    build_record(
        new_uuid(),
        exception_type,
        String::from_str(message),
        stack_trace,
        Context::new(),
        now_rfc3339(),
        config,
    )
}

/// Captures a panic with stack trace. The record's kind is `panic`; its
/// context holds the abort marker and, where given, the origin of the abort.
pub fn capture_panic(message: &str, location: Option<String>, config: &Config) -> (record:
    ExceptionCapture)
    ensures
        record@ == record_of(
            record@.id,
            PANIC_KIND@,
            message@,
            record@.stack_trace,
            panic_context(text_view(location)),
            record@.captured_at,
            config@.agent_id,
            config@.environment,
            config@.runtime,
        ),
        freshly_captured(record@),
{
    let stack_trace = capture_stack_trace();
    let mut context = Context::new();
    context.insert(String::from_str(PANIC_KEY), ContextValue::Bool(true));
    match location {
        Some(place) => {
            context.insert(String::from_str(LOCATION_KEY), ContextValue::Text(place));
        },
        None => {},
    }
    build_record(
        new_uuid(),
        String::from_str(PANIC_KIND),
        String::from_str(message),
        stack_trace,
        context,
        now_rfc3339(),
        config,
    )
}

} // verus!
