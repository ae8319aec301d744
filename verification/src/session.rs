//! The state of a debug session, its settings, and what it tells the client about itself.
use vstd::prelude::*;

use crate::goto_requests::GotoTargetsArguments;
use crate::protocol::{
    Capabilities, CapabilitiesView, CapabilityFlags, Event, EventView, ExceptionBreakpointsFilter,
    ExceptionBreakpointsFilterView, StoppedEventBody, StoppedEventView,
};
use crate::source_map::SourceMap;
use crate::text::{before_first, same_text, split_first};

verus! {

/// What a variables reference leads to.
#[derive(Clone, Copy, Debug, PartialEq, Eq, Structural)]
pub enum Container {
    StackFrame,
    Value,
    Locals,
    Globals,
    Statics,
    Registers,
}

/// The language of expressions that carry no mark of their own.
#[derive(Clone, Copy, Debug, PartialEq, Eq, Structural)]
pub enum Expressions {
    Simple,
    Python,
    Native,
}

/// How values are written.
#[derive(Clone, Copy, Debug, PartialEq, Eq, Structural)]
pub enum Format {
    Default,
    Decimal,
    Hex,
    Binary,
}

/// How the user wants values written.
#[derive(Clone, Copy, Debug, PartialEq, Eq, Structural)]
pub enum DisplayFormat {
    Auto,
    Decimal,
    Hex,
    Binary,
}

/// When disassembly is shown in place of source text.
#[derive(Clone, Copy, Debug, PartialEq, Eq, Structural)]
pub enum ShowDisassembly {
    Always,
    Auto,
    Never,
}

/// What the console takes for granted about what is typed into it.
#[derive(Clone, Copy, Debug, PartialEq, Eq, Structural)]
pub enum ConsoleMode {
    Commands,
    Evaluate,
    Split,
}

/// How a breakpoint finds its source file.
#[derive(Clone, Copy, Debug, PartialEq, Eq, Structural)]
pub enum BreakpointMode {
    Path,
    File,
}

/// What the client told about itself.
#[derive(Clone, Copy, Debug, PartialEq, Eq, Structural)]
pub struct InitializeRequestArguments {
    pub supports_invalidated_event: Option<bool>,
}

/// Settings that the user may change while the session runs. What is not given stays as it is.
#[derive(Debug)]
pub struct AdapterSettings {
    pub display_format: Option<DisplayFormat>,
    pub show_disassembly: Option<ShowDisassembly>,
    pub dereference_pointers: Option<bool>,
    pub suppress_missing_source_files: Option<bool>,
    pub evaluation_timeout_ms: Option<u64>,
    pub summary_timeout_ms: Option<u64>,
    pub console_mode: Option<ConsoleMode>,
    pub evaluate_for_hovers: Option<bool>,
    pub command_completions: Option<bool>,
    pub source_languages: Option<Vec<String>>,
}

/// The state of a session.
#[derive(Debug)]
pub struct DebugSession {
    /// Whether scripts run along with the session.
    pub python_attached: bool,
    /// The number of the request whose cancellation is the current one.
    pub current_cancellation: Option<u32>,
    pub terminate_on_disconnect: bool,
    pub no_debug: bool,
    pub source_map: SourceMap,
    pub pre_terminate_commands: Option<Vec<String>>,
    pub exit_commands: Option<Vec<String>>,
    pub selected_frame_changed: bool,
    pub last_goto_request: Option<GotoTargetsArguments>,
    pub client_caps: Option<InitializeRequestArguments>,
    pub default_expr_type: Expressions,
    pub global_format: Format,
    pub show_disassembly: ShowDisassembly,
    pub deref_pointers: bool,
    pub console_mode: ConsoleMode,
    pub suppress_missing_files: bool,
    pub evaluate_for_hovers: bool,
    pub command_completions: bool,
    pub evaluation_timeout_ms: u64,
    pub source_languages: Vec<String>,
    pub breakpoint_mode: BreakpointMode,
    pub summary_timeout_ms: u64,
    pub max_summary_length: usize,
    pub max_instr_bytes: usize,
}

/// Something that the session wants done around it.
#[derive(Debug)]
pub enum Action {
    Send(Event),
    /// Explain the console mode to the user.
    PrintConsoleMode,
    /// Hand the new settings to the scripts.
    ForwardSettings,
    /// Forget all variables references.
    ResetVariables,
    /// Forget all functions that could be stepped into.
    ClearStepInTargets,
    /// Delete all watchpoints that were set before.
    DeleteAllWatchpoints,
    /// Make the debugger carry out commands asynchronously, whatever it does now.
    SetAsyncMode,
    /// Let launches and attaches that wait for the configuration go on.
    SignalConfigurationDone,
}

pub enum ActionView {
    Send(EventView),
    PrintConsoleMode,
    ForwardSettings,
    ResetVariables,
    ClearStepInTargets,
    DeleteAllWatchpoints,
    SetAsyncMode,
    SignalConfigurationDone,
}

impl DeepView for Action {
    type V = ActionView;

    open spec fn deep_view(&self) -> ActionView {
        match self {
            Action::Send(e) => ActionView::Send(e.deep_view()),
            Action::PrintConsoleMode => ActionView::PrintConsoleMode,
            Action::ForwardSettings => ActionView::ForwardSettings,
            Action::ResetVariables => ActionView::ResetVariables,
            Action::ClearStepInTargets => ActionView::ClearStepInTargets,
            Action::DeleteAllWatchpoints => ActionView::DeleteAllWatchpoints,
            Action::SetAsyncMode => ActionView::SetAsyncMode,
            Action::SignalConfigurationDone => ActionView::SignalConfigurationDone,
        }
    }
}

fn same_strings(a: &Vec<String>, b: &Vec<String>) -> (r: bool)
    ensures
        r == (a.deep_view() == b.deep_view()),
{
    if a.len() != b.len() {
        proof {
            assert(a.deep_view().len() != b.deep_view().len());
        }
        return false;
    }
    let mut i: usize = 0;
    while i < a.len()
        invariant
            i <= a@.len() == b@.len(),
            forall|j: int| 0 <= j < i ==> (#[trigger] a@[j])@ == b@[j]@,
        decreases a@.len() - i,
    {
        if !same_text(a[i].as_str(), b[i].as_str()) {
            proof {
                assert(a.deep_view()[i as int] != b.deep_view()[i as int]);
            }
            return false;
        }
        i = i + 1;
    }
    proof {
        assert(a.deep_view() =~= b.deep_view());
    }
    true
}

fn same_filter(a: &ExceptionBreakpointsFilter, b: &ExceptionBreakpointsFilter) -> (r: bool)
    ensures
        r == (a.deep_view() == b.deep_view()),
{
    same_text(a.filter.as_str(), b.filter.as_str()) && same_text(
        a.label.as_str(),
        b.label.as_str(),
    ) && a.default_ == b.default_ && a.supports_condition == b.supports_condition
}

fn same_filters(a: &Vec<ExceptionBreakpointsFilter>, b: &Vec<ExceptionBreakpointsFilter>) -> (r: bool)
    ensures
        r == (a.deep_view() == b.deep_view()),
{
    if a.len() != b.len() {
        proof {
            assert(a.deep_view().len() != b.deep_view().len());
        }
        return false;
    }
    let mut i: usize = 0;
    while i < a.len()
        invariant
            i <= a@.len() == b@.len(),
            forall|j: int| 0 <= j < i ==> (#[trigger] a@[j]).deep_view() == b@[j].deep_view(),
        decreases a@.len() - i,
    {
        if !same_filter(&a[i], &b[i]) {
            proof {
                assert(a.deep_view()[i as int] != b.deep_view()[i as int]);
            }
            return false;
        }
        i = i + 1;
    }
    proof {
        assert(a.deep_view() =~= b.deep_view());
    }
    true
}

fn copy_strings(v: &Vec<String>) -> (r: Vec<String>)
    ensures
        r.deep_view() == v.deep_view(),
{
    let mut r: Vec<String> = Vec::new();
    let mut i: usize = 0;
    while i < v.len()
        invariant
            i <= v@.len(),
            r@ == v@.take(i as int),
        decreases v@.len() - i,
    {
        r.push(v[i].clone());
        i = i + 1;
        proof {
            assert(r@ =~= v@.take(i as int));
        }
    }
    proof {
        assert(r@ =~= v@);
    }
    r
}

fn contains_text(v: &Vec<String>, s: &str) -> (r: bool)
    ensures
        r == v.deep_view().contains(s@),
{
    let mut i: usize = 0;
    while i < v.len()
        invariant
            i <= v@.len(),
            forall|j: int| 0 <= j < i ==> (#[trigger] v@[j])@ != s@,
        decreases v@.len() - i,
    {
        if same_text(v[i].as_str(), s) {
            proof {
                assert(v.deep_view()[i as int] == s@);
            }
            return true;
        }
        i = i + 1;
    }
    proof {
        assert forall|j: int| 0 <= j < v.deep_view().len() implies v.deep_view()[j] != s@ by {
            assert(v.deep_view()[j] == v@[j]@);
        }
    }
    false
}

/// The language that an exception filter belongs to: its name up to the first underscore.
pub open spec fn filter_language(f: ExceptionBreakpointsFilterView) -> Seq<char> {
    before_first(f.filter, '_')
}

/// The exception filters that belong to one of the languages.
pub open spec fn filters_for(
    filters: Seq<ExceptionBreakpointsFilterView>,
    languages: Seq<Seq<char>>,
) -> Seq<ExceptionBreakpointsFilterView> {
    filters.filter(
        |f: ExceptionBreakpointsFilterView| languages.contains(filter_language(f)),
    )
}

/// The exception filters among `filters` that belong to one of the languages.
pub fn get_exception_filters_for(
    filters: &Vec<ExceptionBreakpointsFilter>,
    source_langs: &Vec<String>,
) -> (r: Vec<ExceptionBreakpointsFilter>)
    ensures
        r.deep_view() == filters_for(filters.deep_view(), source_langs.deep_view()),
{
    let ghost all = filters.deep_view();
    let ghost languages = source_langs.deep_view();
    let ghost pred = |f: ExceptionBreakpointsFilterView| languages.contains(filter_language(f));
    let mut r: Vec<ExceptionBreakpointsFilter> = Vec::new();
    let mut i: usize = 0;
    proof {
        reveal(Seq::filter);
        assert(r.deep_view() =~= all.take(0).filter(pred));
    }
    while i < filters.len()
        invariant
            i <= filters@.len(),
            all == filters.deep_view(),
            languages == source_langs.deep_view(),
            pred == (|f: ExceptionBreakpointsFilterView| languages.contains(filter_language(f))),
            r.deep_view() == all.take(i as int).filter(pred),
        decreases filters@.len() - i,
    {
        let f: &ExceptionBreakpointsFilter = &filters[i];
        let (language, _) = split_first(f.filter.as_str(), '_');
        let ghost before = r.deep_view();
        proof {
            reveal(Seq::filter);
            assert(all.take(i as int + 1).drop_last() =~= all.take(i as int));
            assert(all.take(i as int + 1).last() == f.deep_view());
        }
        if contains_text(source_langs, language.as_str()) {
            r.push(f.clone());
            proof {
                assert(r.deep_view() =~= before.push(f.deep_view()));
            }
        }
        i = i + 1;
    }
    proof {
        assert(all.take(filters@.len() as int) =~= all);
    }
    r
}

impl CapabilityFlags {
    /// No capability is mentioned.
    pub open spec fn unmentioned() -> CapabilityFlags {
        CapabilityFlags {
            support_terminate_debuggee: None,
            supports_cancel_request: None,
            supports_clipboard_context: None,
            supports_completions_request: None,
            supports_conditional_breakpoints: None,
            supports_configuration_done_request: None,
            supports_data_breakpoints: None,
            supports_data_breakpoint_bytes: None,
            supports_delayed_stack_trace_loading: None,
            supports_disassemble_request: None,
            supports_evaluate_for_hovers: None,
            supports_exception_filter_options: None,
            supports_exception_info_request: None,
            supports_function_breakpoints: None,
            supports_goto_targets_request: None,
            supports_hit_conditional_breakpoints: None,
            supports_instruction_breakpoints: None,
            supports_log_points: None,
            supports_modules_request: None,
            supports_read_memory_request: None,
            supports_restart_request: None,
            supports_set_variable: None,
            supports_step_in_targets_request: None,
            supports_stepping_granularity: None,
            supports_write_memory_request: None,
        }
    }

    /// Flags that mention no capability.
    pub fn none() -> (r: CapabilityFlags)
        ensures
            r == CapabilityFlags::unmentioned(),
    {
        CapabilityFlags {
            support_terminate_debuggee: None,
            supports_cancel_request: None,
            supports_clipboard_context: None,
            supports_completions_request: None,
            supports_conditional_breakpoints: None,
            supports_configuration_done_request: None,
            supports_data_breakpoints: None,
            supports_data_breakpoint_bytes: None,
            supports_delayed_stack_trace_loading: None,
            supports_disassemble_request: None,
            supports_evaluate_for_hovers: None,
            supports_exception_filter_options: None,
            supports_exception_info_request: None,
            supports_function_breakpoints: None,
            supports_goto_targets_request: None,
            supports_hit_conditional_breakpoints: None,
            supports_instruction_breakpoints: None,
            supports_log_points: None,
            supports_modules_request: None,
            supports_read_memory_request: None,
            supports_restart_request: None,
            supports_set_variable: None,
            supports_step_in_targets_request: None,
            supports_stepping_granularity: None,
            supports_write_memory_request: None,
        }
    }
}

/// Everything that the adapter can do. Three of the switches follow the session and the debugger.
pub open spec fn full_flags(hovers: bool, completions: bool, step_in_targets: bool)
    -> CapabilityFlags {
    CapabilityFlags {
        support_terminate_debuggee: Some(true),
        supports_cancel_request: Some(true),
        supports_clipboard_context: Some(true),
        supports_completions_request: Some(completions),
        supports_conditional_breakpoints: Some(true),
        supports_configuration_done_request: Some(true),
        supports_data_breakpoints: Some(true),
        supports_data_breakpoint_bytes: Some(true),
        supports_delayed_stack_trace_loading: Some(true),
        supports_disassemble_request: Some(true),
        supports_evaluate_for_hovers: Some(hovers),
        supports_exception_filter_options: Some(true),
        supports_exception_info_request: Some(true),
        supports_function_breakpoints: Some(true),
        supports_goto_targets_request: Some(true),
        supports_hit_conditional_breakpoints: Some(true),
        supports_instruction_breakpoints: Some(true),
        supports_log_points: Some(true),
        supports_modules_request: Some(true),
        supports_read_memory_request: Some(true),
        supports_restart_request: Some(true),
        supports_set_variable: Some(true),
        supports_step_in_targets_request: Some(step_in_targets),
        supports_stepping_granularity: Some(true),
        supports_write_memory_request: Some(true),
    }
}

/// All that a session tells about its capabilities.
pub open spec fn capabilities_of(
    s: DebugSession,
    filters: Seq<ExceptionBreakpointsFilterView>,
    step_in_targets: bool,
) -> CapabilitiesView {
    CapabilitiesView {
        exception_breakpoint_filters: Some(filters_for(filters, s.source_languages.deep_view())),
        flags: full_flags(s.evaluate_for_hovers, s.command_completions, step_in_targets),
    }
}

/// The value of a setting: the one that is given, or else the one that was.
pub open spec fn setting<T>(given: Option<T>, current: T) -> T {
    match given {
        Some(v) => v,
        None => current,
    }
}

/// The format that the user wants.
pub open spec fn format_for(f: DisplayFormat) -> Format {
    match f {
        DisplayFormat::Auto => Format::Default,
        DisplayFormat::Decimal => Format::Decimal,
        DisplayFormat::Hex => Format::Hex,
        DisplayFormat::Binary => Format::Binary,
    }
}

/// The languages that a session has after its settings were changed.
pub open spec fn languages_after(s: DebugSession, settings: AdapterSettings) -> Seq<Seq<char>> {
    match settings.source_languages {
        Some(v) => v.deep_view(),
        None => s.source_languages.deep_view(),
    }
}

/// Whether `after` is the session `s` with the settings changed, and nothing else.
pub open spec fn settings_applied(s: DebugSession, settings: AdapterSettings, after: DebugSession)
    -> bool {
    &&& after.source_languages.deep_view() == languages_after(s, settings)
    &&& after == (DebugSession {
        global_format: match settings.display_format {
            Some(f) => format_for(f),
            None => s.global_format,
        },
        show_disassembly: setting(settings.show_disassembly, s.show_disassembly),
        deref_pointers: setting(settings.dereference_pointers, s.deref_pointers),
        suppress_missing_files: setting(
            settings.suppress_missing_source_files,
            s.suppress_missing_files,
        ),
        evaluation_timeout_ms: setting(settings.evaluation_timeout_ms, s.evaluation_timeout_ms),
        summary_timeout_ms: setting(settings.summary_timeout_ms, s.summary_timeout_ms),
        console_mode: setting(settings.console_mode, s.console_mode),
        evaluate_for_hovers: setting(settings.evaluate_for_hovers, s.evaluate_for_hovers),
        command_completions: setting(settings.command_completions, s.command_completions),
        source_languages: after.source_languages,
        ..s
    })
}

/// The capabilities that change when settings are changed. Those that stay are not mentioned.
pub open spec fn capability_changes(
    s: DebugSession,
    settings: AdapterSettings,
    filters: Seq<ExceptionBreakpointsFilterView>,
) -> CapabilitiesView {
    let hovers = setting(settings.evaluate_for_hovers, s.evaluate_for_hovers);
    let completions = setting(settings.command_completions, s.command_completions);
    let languages = languages_after(s, settings);
    CapabilitiesView {
        exception_breakpoint_filters: if filters_for(filters, languages) == filters_for(
            filters,
            s.source_languages.deep_view(),
        ) {
            None
        } else {
            Some(filters_for(filters, languages))
        },
        flags: CapabilityFlags {
            supports_evaluate_for_hovers: if hovers == s.evaluate_for_hovers {
                None
            } else {
                Some(hovers)
            },
            supports_completions_request: if completions == s.command_completions {
                None
            } else {
                Some(completions)
            },
            ..CapabilityFlags::unmentioned()
        },
    }
}

/// The capabilities that mention nothing.
pub open spec fn no_capabilities() -> CapabilitiesView {
    CapabilitiesView {
        exception_breakpoint_filters: None,
        flags: CapabilityFlags::unmentioned(),
    }
}

/// The event that tells the client about changed capabilities, if any.
pub open spec fn changes_told(
    s: DebugSession,
    settings: AdapterSettings,
    filters: Seq<ExceptionBreakpointsFilterView>,
) -> Option<EventView> {
    let changes = capability_changes(s, settings, filters);
    if changes != no_capabilities() {
        Some(EventView::Capabilities(changes))
    } else {
        None
    }
}

/// A stop that only makes the client look at the debuggee again.
pub open spec fn refreshing_stop(thread_id: u64) -> EventView {
    EventView::Stopped(
        StoppedEventView {
            reason: ""@,
            description: None,
            thread_id: Some(thread_id as i64),
            all_threads_stopped: Some(true),
            preserve_focus_hint: None,
            hit_breakpoint_ids: None,
        },
    )
}

/// The events that make the client show the debuggee anew.
pub open spec fn refresh_events(s: DebugSession, thread_id: u64) -> Seq<EventView> {
    let stop = refreshing_stop(thread_id);
    if s.client_caps->0.supports_invalidated_event == Some(true) {
        seq![EventView::Invalidated { thread_id: Some(thread_id as i64) }, stop]
    } else {
        seq![stop]
    }
}

/// The actions after settings were changed to `after`.
pub open spec fn settings_actions(
    s: DebugSession,
    settings: AdapterSettings,
    filters: Seq<ExceptionBreakpointsFilterView>,
    after: DebugSession,
    running: bool,
    selected_thread: u64,
) -> Seq<ActionView> {
    let forward = if s.python_attached {
        seq![ActionView::ForwardSettings]
    } else {
        Seq::empty()
    };
    let told = match changes_told(s, settings, filters) {
        Some(e) => seq![ActionView::Send(e)],
        None => Seq::empty(),
    };
    let explained = if after.console_mode != s.console_mode {
        seq![ActionView::PrintConsoleMode]
    } else {
        Seq::empty()
    };
    let refreshed = if !running {
        refresh_events(after, selected_thread).map_values(|e: EventView| ActionView::Send(e))
    } else {
        Seq::empty()
    };
    forward + told + explained + refreshed
}

/// Whether a session has not heard from its client yet.
pub open spec fn session_fresh(python_attached: bool, s: DebugSession) -> bool {
    &&& s.python_attached == python_attached
    &&& s.current_cancellation is None
    &&& !s.terminate_on_disconnect
    &&& !s.no_debug
    &&& s.source_map@ == Map::<Seq<char>, Option<Seq<char>>>::empty()
    &&& s.source_map.wf()
    &&& s.pre_terminate_commands is None
    &&& s.exit_commands is None
    &&& !s.selected_frame_changed
    &&& s.last_goto_request is None
    &&& s.client_caps is None
    &&& s.default_expr_type == Expressions::Simple
    &&& s.global_format == Format::Default
    &&& s.show_disassembly == ShowDisassembly::Auto
    &&& s.deref_pointers
    &&& s.console_mode == ConsoleMode::Commands
    &&& s.suppress_missing_files
    &&& s.evaluate_for_hovers
    &&& s.command_completions
    &&& s.evaluation_timeout_ms == 5000
    &&& s.source_languages.deep_view() == seq!["cpp"@]
    &&& s.breakpoint_mode == BreakpointMode::Path
    &&& s.summary_timeout_ms == 10
    &&& s.max_summary_length == 32
    &&& s.max_instr_bytes == 9
}

/// The session `s` once its client has told about itself.
pub open spec fn session_initialized(s: DebugSession, args: InitializeRequestArguments)
    -> DebugSession {
    DebugSession { client_caps: Some(args), ..s }
}

impl DebugSession {
    /// A session that has not heard from its client yet.
    pub fn new(python_attached: bool) -> (s: DebugSession)
        ensures
            session_fresh(python_attached, s),
    {
        let mut source_languages: Vec<String> = Vec::new();
        source_languages.push("cpp".to_owned());
        proof {
            assert(source_languages.deep_view() =~= seq!["cpp"@]);
        }
        DebugSession {
            python_attached,
            current_cancellation: None,
            terminate_on_disconnect: false,
            no_debug: false,
            source_map: SourceMap::new(),
            pre_terminate_commands: None,
            exit_commands: None,
            selected_frame_changed: false,
            last_goto_request: None,
            client_caps: None,
            default_expr_type: Expressions::Simple,
            global_format: Format::Default,
            show_disassembly: ShowDisassembly::Auto,
            deref_pointers: true,
            console_mode: ConsoleMode::Commands,
            suppress_missing_files: true,
            evaluate_for_hovers: true,
            command_completions: true,
            evaluation_timeout_ms: 5000,
            source_languages,
            breakpoint_mode: BreakpointMode::Path,
            summary_timeout_ms: 10,
            max_summary_length: 32,
            max_instr_bytes: 9,
        }
    }

    /// Remembers what the client told about itself, and tells it what the adapter can do.
    pub fn handle_initialize(
        &mut self,
        args: InitializeRequestArguments,
        filters: &Vec<ExceptionBreakpointsFilter>,
        step_in_targets: bool,
    ) -> (r: Capabilities)
        ensures
            *final(self) == session_initialized(*old(self), args),
            r.deep_view() == capabilities_of(*old(self), filters.deep_view(), step_in_targets),
    {
        self.client_caps = Some(args);
        self.make_capabilities(filters, step_in_targets)
    }

    /// All that the adapter can do. `filters` are the exception filters of all languages, and
    /// `step_in_targets` tells whether the debugger can tell what is stepped into.
    pub fn make_capabilities(
        &self,
        filters: &Vec<ExceptionBreakpointsFilter>,
        step_in_targets: bool,
    ) -> (r: Capabilities)
        ensures
            r.deep_view() == capabilities_of(*self, filters.deep_view(), step_in_targets),
    {
        Capabilities {
            exception_breakpoint_filters: Some(
                get_exception_filters_for(filters, &self.source_languages),
            ),
            flags: CapabilityFlags {
                support_terminate_debuggee: Some(true),
                supports_cancel_request: Some(true),
                supports_clipboard_context: Some(true),
                supports_completions_request: Some(self.command_completions),
                supports_conditional_breakpoints: Some(true),
                supports_configuration_done_request: Some(true),
                supports_data_breakpoints: Some(true),
                supports_data_breakpoint_bytes: Some(true),
                supports_delayed_stack_trace_loading: Some(true),
                supports_disassemble_request: Some(true),
                supports_evaluate_for_hovers: Some(self.evaluate_for_hovers),
                supports_exception_filter_options: Some(true),
                supports_exception_info_request: Some(true),
                supports_function_breakpoints: Some(true),
                supports_goto_targets_request: Some(true),
                supports_hit_conditional_breakpoints: Some(true),
                supports_instruction_breakpoints: Some(true),
                supports_log_points: Some(true),
                supports_modules_request: Some(true),
                supports_read_memory_request: Some(true),
                supports_restart_request: Some(true),
                supports_set_variable: Some(true),
                supports_step_in_targets_request: Some(step_in_targets),
                supports_stepping_granularity: Some(true),
                supports_write_memory_request: Some(true),
            },
        }
    }

    fn apply_display_settings(&mut self, settings: &AdapterSettings)
        ensures
            *final(self) == (DebugSession {
                global_format: match settings.display_format {
                    Some(f) => format_for(f),
                    None => old(self).global_format,
                },
                show_disassembly: setting(settings.show_disassembly, old(self).show_disassembly),
                deref_pointers: setting(settings.dereference_pointers, old(self).deref_pointers),
                suppress_missing_files: setting(
                    settings.suppress_missing_source_files,
                    old(self).suppress_missing_files,
                ),
                evaluation_timeout_ms: setting(
                    settings.evaluation_timeout_ms,
                    old(self).evaluation_timeout_ms,
                ),
                summary_timeout_ms: setting(
                    settings.summary_timeout_ms,
                    old(self).summary_timeout_ms,
                ),
                console_mode: setting(settings.console_mode, old(self).console_mode),
                ..*old(self)
            }),
    {
        self.global_format = match settings.display_format {
            None => self.global_format,
            Some(DisplayFormat::Auto) => Format::Default,
            Some(DisplayFormat::Decimal) => Format::Decimal,
            Some(DisplayFormat::Hex) => Format::Hex,
            Some(DisplayFormat::Binary) => Format::Binary,
        };
        self.show_disassembly = settings.show_disassembly.unwrap_or(self.show_disassembly);
        self.deref_pointers = settings.dereference_pointers.unwrap_or(self.deref_pointers);
        self.suppress_missing_files = settings.suppress_missing_source_files.unwrap_or(
            self.suppress_missing_files,
        );
        self.evaluation_timeout_ms = settings.evaluation_timeout_ms.unwrap_or(
            self.evaluation_timeout_ms,
        );
        self.summary_timeout_ms = settings.summary_timeout_ms.unwrap_or(self.summary_timeout_ms);
        self.console_mode = settings.console_mode.unwrap_or(self.console_mode);
    }

    fn apply_switches(&mut self, settings: &AdapterSettings) -> (flags: CapabilityFlags)
        ensures
            *final(self) == (DebugSession {
                evaluate_for_hovers: setting(
                    settings.evaluate_for_hovers,
                    old(self).evaluate_for_hovers,
                ),
                command_completions: setting(
                    settings.command_completions,
                    old(self).command_completions,
                ),
                ..*old(self)
            }),
            flags == capability_changes(*old(self), *settings, Seq::empty()).flags,
    {
        let mut flags: CapabilityFlags = CapabilityFlags::none();
        if let Some(evaluate_for_hovers) = settings.evaluate_for_hovers {
            if self.evaluate_for_hovers != evaluate_for_hovers {
                self.evaluate_for_hovers = evaluate_for_hovers;
                flags.supports_evaluate_for_hovers = Some(evaluate_for_hovers);
            }
        }
        if let Some(command_completions) = settings.command_completions {
            if self.command_completions != command_completions {
                self.command_completions = command_completions;
                flags.supports_completions_request = Some(command_completions);
            }
        }
        flags
    }

    /// Whether new settings are also handed to the scripts, which is so whenever settings change.
    pub fn forwards_settings(&self) -> (r: bool)
        ensures
            r == self.python_attached,
    {
        self.python_attached
    }

    /// Changes the settings, and gives back the capabilities that changed. Languages that lead to
    /// the same exception filters change no capability.
    pub fn update_adapter_settings(
        &mut self,
        settings: &AdapterSettings,
        filters: &Vec<ExceptionBreakpointsFilter>,
    ) -> (r: Capabilities)
        ensures
            settings_applied(*old(self), *settings, *final(self)),
            r.deep_view() == capability_changes(*old(self), *settings, filters.deep_view()),
    {
        self.apply_display_settings(settings);
        let flags: CapabilityFlags = self.apply_switches(settings);
        let ghost switched = *self;
        let mut exception_breakpoint_filters: Option<Vec<ExceptionBreakpointsFilter>> = None;
        if let Some(source_languages) = &settings.source_languages {
            if !same_strings(&self.source_languages, source_languages) {
                let old_filters: Vec<ExceptionBreakpointsFilter> = get_exception_filters_for(
                    filters,
                    &self.source_languages,
                );
                self.source_languages = copy_strings(source_languages);
                let new_filters: Vec<ExceptionBreakpointsFilter> = get_exception_filters_for(
                    filters,
                    &self.source_languages,
                );
                if !same_filters(&old_filters, &new_filters) {
                    exception_breakpoint_filters = Some(new_filters);
                }
            }
        }
        proof {
            assert(*self == (DebugSession { source_languages: self.source_languages, ..switched }));
        }
        Capabilities { exception_breakpoint_filters, flags }
    }

    /// Changes the settings. An event tells the client about capabilities that changed, if any.
    pub fn update_adapter_settings_and_caps(
        &mut self,
        settings: &AdapterSettings,
        filters: &Vec<ExceptionBreakpointsFilter>,
    ) -> (r: Option<Event>)
        ensures
            settings_applied(*old(self), *settings, *final(self)),
            r.deep_view() == changes_told(*old(self), *settings, filters.deep_view()),
    {
        let new_caps: Capabilities = self.update_adapter_settings(settings, filters);
        if new_caps.exception_breakpoint_filters.is_some() || new_caps.flags
            != CapabilityFlags::none() {
            Some(Event::Capabilities(new_caps))
        } else {
            None
        }
    }

    /// Changes the settings at the request of the client. `running` tells whether the debuggee runs:
    /// if not, the client shows it anew, with the selected thread.
    pub fn handle_adapter_settings(
        &mut self,
        settings: &AdapterSettings,
        filters: &Vec<ExceptionBreakpointsFilter>,
        running: bool,
        selected_thread: u64,
    ) -> (actions: Vec<Action>)
        requires
            !running ==> old(self).client_caps is Some,
        ensures
            settings_applied(*old(self), *settings, *final(self)),
            actions.deep_view() == settings_actions(
                *old(self),
                *settings,
                filters.deep_view(),
                *final(self),
                running,
                selected_thread,
            ),
    {
        let old_console_mode: ConsoleMode = self.console_mode;
        let forward: bool = self.forwards_settings();
        let told: Option<Event> = self.update_adapter_settings_and_caps(settings, filters);
        let explain: bool = self.console_mode != old_console_mode;
        let events: Vec<Event> = if running {
            Vec::new()
        } else {
            self.refresh_client_display(None, selected_thread)
        };
        let ghost shown = events.deep_view();
        let ghost sends = shown.map_values(|e: EventView| ActionView::Send(e));
        proof {
            assert(running ==> sends =~= Seq::empty());
        }
        settings_action_list(forward, told, explain, events)
    }

    /// Makes the client show the debuggee anew: the given thread, or else the selected one.
    pub fn refresh_client_display(&self, thread_id: Option<u64>, selected_thread: u64) -> (events:
        Vec<Event>)
        requires
            self.client_caps is Some,
        ensures
            events.deep_view() == refresh_events(*self, setting(thread_id, selected_thread)),
    {
        let tid: i64 = #[verifier::truncate] (thread_id.unwrap_or(selected_thread) as i64);
        let mut events: Vec<Event> = Vec::new();
        if self.client_caps.unwrap().supports_invalidated_event.unwrap_or(false) {
            events.push(Event::Invalidated { thread_id: Some(tid) });
        }
        events.push(
            Event::Stopped(
                StoppedEventBody {
                    reason: "".to_owned(),
                    description: None,
                    thread_id: Some(tid),
                    all_threads_stopped: Some(true),
                    preserve_focus_hint: None,
                    hit_breakpoint_ids: None,
                },
            ),
        );
        proof {
            assert(events.deep_view() =~= refresh_events(
                *self,
                setting(thread_id, selected_thread),
            ));
        }
        events
    }

    /// Forgets what is true only while the debuggee is stopped.
    pub fn before_resume(&mut self) -> (actions: Vec<Action>)
        ensures
            *final(self) == (DebugSession {
                selected_frame_changed: false,
                last_goto_request: None,
                ..*old(self)
            }),
            actions.deep_view() == seq![ActionView::ResetVariables, ActionView::ClearStepInTargets],
    {
        self.selected_frame_changed = false;
        self.last_goto_request = None;
        let mut actions: Vec<Action> = Vec::new();
        actions.push(Action::ResetVariables);
        actions.push(Action::ClearStepInTargets);
        proof {
            assert(actions.deep_view() =~= seq![
                ActionView::ResetVariables,
                ActionView::ClearStepInTargets,
            ]);
        }
        actions
    }
}

fn settings_action_list(forward: bool, told: Option<Event>, explain: bool, shown: Vec<Event>)
    -> (actions: Vec<Action>)
    ensures
        actions.deep_view() == (if forward {
            seq![ActionView::ForwardSettings]
        } else {
            Seq::empty()
        }) + (match told {
            Some(e) => seq![ActionView::Send(e.deep_view())],
            None => Seq::empty(),
        }) + (if explain {
            seq![ActionView::PrintConsoleMode]
        } else {
            Seq::empty()
        }) + shown.deep_view().map_values(|e: EventView| ActionView::Send(e)),
{
    let mut actions: Vec<Action> = Vec::new();
    if forward {
        actions.push(Action::ForwardSettings);
    }
    let ghost first = actions.deep_view();
    proof {
        assert(first =~= if forward {
            seq![ActionView::ForwardSettings]
        } else {
            Seq::empty()
        });
    }
    if let Some(event) = told {
        actions.push(Action::Send(event));
    }
    let ghost second = actions.deep_view();
    proof {
        assert(second =~= first + match told {
            Some(e) => seq![ActionView::Send(e.deep_view())],
            None => Seq::empty(),
        });
    }
    if explain {
        actions.push(Action::PrintConsoleMode);
    }
    proof {
        assert(actions.deep_view() =~= second + if explain {
            seq![ActionView::PrintConsoleMode]
        } else {
            Seq::empty()
        });
    }
    push_sends(&mut actions, shown);
    actions
}

fn push_sends(actions: &mut Vec<Action>, events: Vec<Event>)
    ensures
        final(actions).deep_view() == old(actions).deep_view() + events.deep_view().map_values(
            |e: EventView| ActionView::Send(e),
        ),
{
    let ghost before = actions.deep_view();
    let ghost all = events@;
    let ghost sends = events.deep_view().map_values(|e: EventView| ActionView::Send(e));
    for event in it: events
        invariant
            it.seq() == all,
            sends.len() == all.len(),
            forall|k: int|
                0 <= k < all.len() ==> #[trigger] sends[k] == ActionView::Send(all[k].deep_view()),
            actions.deep_view() == before + sends.take(it.index()),
    {
        let ghost so_far = actions.deep_view();
        actions.push(Action::Send(event));
        proof {
            assert(actions.deep_view() =~= so_far.push(ActionView::Send(event.deep_view())));
            assert(actions.deep_view() =~= before + sends.take(it.index() + 1));
        }
    }
    proof {
        assert(sends.take(all.len() as int) =~= sends);
    }
}

/// Settings that are given a second time change nothing and tell the client nothing.
pub proof fn law_settings_are_applied_once(
    s: DebugSession,
    settings: AdapterSettings,
    after: DebugSession,
    again: DebugSession,
    filters: Seq<ExceptionBreakpointsFilterView>,
)
    requires
        settings_applied(s, settings, after),
        settings_applied(after, settings, again),
    ensures
        capability_changes(after, settings, filters) == no_capabilities(),
        again.source_languages.deep_view() == after.source_languages.deep_view(),
        again == (DebugSession { source_languages: again.source_languages, ..after }),
{
}

/// What the client is told about changes is what it would be told if it asked anew: what is not
/// mentioned has not changed.
pub proof fn law_changes_lead_to_the_new_capabilities(
    s: DebugSession,
    settings: AdapterSettings,
    after: DebugSession,
    filters: Seq<ExceptionBreakpointsFilterView>,
    step_in_targets: bool,
)
    requires
        settings_applied(s, settings, after),
    ensures
        ({
            let old_caps = capabilities_of(s, filters, step_in_targets);
            let new_caps = capabilities_of(after, filters, step_in_targets);
            let changes = capability_changes(s, settings, filters);
            &&& new_caps.exception_breakpoint_filters
                == match changes.exception_breakpoint_filters {
                Some(f) => Some(f),
                None => old_caps.exception_breakpoint_filters,
            }
            &&& new_caps.flags == (CapabilityFlags {
                supports_evaluate_for_hovers: match changes.flags.supports_evaluate_for_hovers {
                    Some(v) => Some(v),
                    None => old_caps.flags.supports_evaluate_for_hovers,
                },
                supports_completions_request: match changes.flags.supports_completions_request {
                    Some(v) => Some(v),
                    None => old_caps.flags.supports_completions_request,
                },
                ..old_caps.flags
            })
        }),
{
}

/// Settings of which none is given leave the session as it is.
pub proof fn law_no_settings_leave_all_as_it_is(
    s: DebugSession,
    settings: AdapterSettings,
    after: DebugSession,
)
    requires
        settings_applied(s, settings, after),
        settings.display_format is None,
        settings.show_disassembly is None,
        settings.dereference_pointers is None,
        settings.suppress_missing_source_files is None,
        settings.evaluation_timeout_ms is None,
        settings.summary_timeout_ms is None,
        settings.console_mode is None,
        settings.evaluate_for_hovers is None,
        settings.command_completions is None,
        settings.source_languages is None,
    ensures
        after.source_languages.deep_view() == s.source_languages.deep_view(),
        after == (DebugSession { source_languages: after.source_languages, ..s }),
{
}

/// A new session knows nothing of its client, its debuggee or its files. It takes what is typed for
/// commands, writes values as they are by default, follows pointers, shows source where there is some
/// and hides files that are missing.
pub proof fn law_new_sessions_start_with_defaults(python_attached: bool, s: DebugSession)
    requires
        session_fresh(python_attached, s),
    ensures
        s.python_attached == python_attached,
        s.client_caps is None,
        s.current_cancellation is None,
        s.last_goto_request is None,
        s.pre_terminate_commands is None,
        s.exit_commands is None,
        s.source_map.wf(),
        forall|file: Seq<char>| !(#[trigger] s.source_map@.contains_key(file)),
        !(s.terminate_on_disconnect || s.no_debug || s.selected_frame_changed),
        s.deref_pointers && s.suppress_missing_files,
        s.evaluate_for_hovers && s.command_completions,
        s.default_expr_type is Simple,
        s.global_format is Default,
        s.show_disassembly is Auto,
        s.console_mode is Commands,
        s.breakpoint_mode is Path,
        s.source_languages.deep_view().len() == 1,
        s.source_languages.deep_view()[0] == seq!['c', 'p', 'p'],
        s.evaluation_timeout_ms == 5000,
        s.summary_timeout_ms == 10,
        s.max_summary_length == 32,
        s.max_instr_bytes == 9,
{
    reveal_strlit("cpp");
    assert("cpp"@ =~= seq!['c', 'p', 'p']);
}

/// What the client tells about itself is remembered, and nothing else of the session changes.
pub proof fn law_clients_are_remembered(s: DebugSession, args: InitializeRequestArguments)
    ensures
        session_initialized(s, args).client_caps == Some(args),
        (DebugSession { client_caps: s.client_caps, ..session_initialized(s, args) }) == s,
{
}

/// The exception filters of a language are those whose name starts with it, up to the first
/// underscore. They stay in order: those of two lists, one behind the other, are those of the first
/// and then those of the second.
pub proof fn law_filters_go_by_language(
    f: ExceptionBreakpointsFilterView,
    a: Seq<ExceptionBreakpointsFilterView>,
    b: Seq<ExceptionBreakpointsFilterView>,
    languages: Seq<Seq<char>>,
)
    ensures
        filters_for(seq![f], languages) == if languages.contains(before_first(f.filter, '_')) {
            seq![f]
        } else {
            Seq::empty()
        },
        filters_for(a + b, languages) == filters_for(a, languages) + filters_for(b, languages),
        filters_for(Seq::empty(), languages).len() == 0,
{
    let pred = |g: ExceptionBreakpointsFilterView| languages.contains(filter_language(g));
    reveal(Seq::filter);
    assert(seq![f].drop_last() =~= Seq::empty());
    assert(Seq::<ExceptionBreakpointsFilterView>::empty().filter(pred) =~= Seq::empty());
    assert(Seq::<ExceptionBreakpointsFilterView>::empty().push(f) =~= seq![f]);
    Seq::filter_distributes_over_add(a, b, pred);
}

/// The client is told of every capability. All of them are there but three: completions and hovers
/// follow the session, and the functions to step into follow the debugger. The exception filters are
/// those of the session's languages.
pub proof fn law_capabilities_are_told_in_full(
    s: DebugSession,
    filters: Seq<ExceptionBreakpointsFilterView>,
    step_in_targets: bool,
)
    ensures
        ({
            let caps = capabilities_of(s, filters, step_in_targets);
            &&& caps.exception_breakpoint_filters == Some(
                filters_for(filters, s.source_languages.deep_view()),
            )
            &&& caps.flags.support_terminate_debuggee == Some(true)
            &&& caps.flags.supports_cancel_request == Some(true)
            &&& caps.flags.supports_clipboard_context == Some(true)
            &&& caps.flags.supports_completions_request == Some(s.command_completions)
            &&& caps.flags.supports_conditional_breakpoints == Some(true)
            &&& caps.flags.supports_configuration_done_request == Some(true)
            &&& caps.flags.supports_data_breakpoints == Some(true)
            &&& caps.flags.supports_data_breakpoint_bytes == Some(true)
            &&& caps.flags.supports_delayed_stack_trace_loading == Some(true)
            &&& caps.flags.supports_disassemble_request == Some(true)
            &&& caps.flags.supports_evaluate_for_hovers == Some(s.evaluate_for_hovers)
            &&& caps.flags.supports_exception_filter_options == Some(true)
            &&& caps.flags.supports_exception_info_request == Some(true)
            &&& caps.flags.supports_function_breakpoints == Some(true)
            &&& caps.flags.supports_goto_targets_request == Some(true)
            &&& caps.flags.supports_hit_conditional_breakpoints == Some(true)
            &&& caps.flags.supports_instruction_breakpoints == Some(true)
            &&& caps.flags.supports_log_points == Some(true)
            &&& caps.flags.supports_modules_request == Some(true)
            &&& caps.flags.supports_read_memory_request == Some(true)
            &&& caps.flags.supports_restart_request == Some(true)
            &&& caps.flags.supports_set_variable == Some(true)
            &&& caps.flags.supports_step_in_targets_request == Some(step_in_targets)
            &&& caps.flags.supports_stepping_granularity == Some(true)
            &&& caps.flags.supports_write_memory_request == Some(true)
        }),
{
}

/// Where no capability is mentioned, none of them has a value.
pub proof fn law_unmentioned_capabilities_have_no_value()
    ensures
        CapabilityFlags::unmentioned().support_terminate_debuggee is None,
        CapabilityFlags::unmentioned().supports_cancel_request is None,
        CapabilityFlags::unmentioned().supports_clipboard_context is None,
        CapabilityFlags::unmentioned().supports_completions_request is None,
        CapabilityFlags::unmentioned().supports_conditional_breakpoints is None,
        CapabilityFlags::unmentioned().supports_configuration_done_request is None,
        CapabilityFlags::unmentioned().supports_data_breakpoints is None,
        CapabilityFlags::unmentioned().supports_data_breakpoint_bytes is None,
        CapabilityFlags::unmentioned().supports_delayed_stack_trace_loading is None,
        CapabilityFlags::unmentioned().supports_disassemble_request is None,
        CapabilityFlags::unmentioned().supports_evaluate_for_hovers is None,
        CapabilityFlags::unmentioned().supports_exception_filter_options is None,
        CapabilityFlags::unmentioned().supports_exception_info_request is None,
        CapabilityFlags::unmentioned().supports_function_breakpoints is None,
        CapabilityFlags::unmentioned().supports_goto_targets_request is None,
        CapabilityFlags::unmentioned().supports_hit_conditional_breakpoints is None,
        CapabilityFlags::unmentioned().supports_instruction_breakpoints is None,
        CapabilityFlags::unmentioned().supports_log_points is None,
        CapabilityFlags::unmentioned().supports_modules_request is None,
        CapabilityFlags::unmentioned().supports_read_memory_request is None,
        CapabilityFlags::unmentioned().supports_restart_request is None,
        CapabilityFlags::unmentioned().supports_set_variable is None,
        CapabilityFlags::unmentioned().supports_step_in_targets_request is None,
        CapabilityFlags::unmentioned().supports_stepping_granularity is None,
        CapabilityFlags::unmentioned().supports_write_memory_request is None,
        no_capabilities().flags.support_terminate_debuggee is None,
        no_capabilities().flags.supports_cancel_request is None,
        no_capabilities().flags.supports_clipboard_context is None,
        no_capabilities().flags.supports_completions_request is None,
        no_capabilities().flags.supports_conditional_breakpoints is None,
        no_capabilities().flags.supports_configuration_done_request is None,
        no_capabilities().flags.supports_data_breakpoints is None,
        no_capabilities().flags.supports_data_breakpoint_bytes is None,
        no_capabilities().flags.supports_delayed_stack_trace_loading is None,
        no_capabilities().flags.supports_disassemble_request is None,
        no_capabilities().flags.supports_evaluate_for_hovers is None,
        no_capabilities().flags.supports_exception_filter_options is None,
        no_capabilities().flags.supports_exception_info_request is None,
        no_capabilities().flags.supports_function_breakpoints is None,
        no_capabilities().flags.supports_goto_targets_request is None,
        no_capabilities().flags.supports_hit_conditional_breakpoints is None,
        no_capabilities().flags.supports_instruction_breakpoints is None,
        no_capabilities().flags.supports_log_points is None,
        no_capabilities().flags.supports_modules_request is None,
        no_capabilities().flags.supports_read_memory_request is None,
        no_capabilities().flags.supports_restart_request is None,
        no_capabilities().flags.supports_set_variable is None,
        no_capabilities().flags.supports_step_in_targets_request is None,
        no_capabilities().flags.supports_stepping_granularity is None,
        no_capabilities().flags.supports_write_memory_request is None,
        no_capabilities().exception_breakpoint_filters is None,
{
}

/// Each setting takes the value that is given, and stays as it is where none is given. What is no
/// setting stays as it is.
pub proof fn law_each_setting_is_taken_up(
    s: DebugSession,
    settings: AdapterSettings,
    after: DebugSession,
)
    requires
        settings_applied(s, settings, after),
    ensures
        settings.show_disassembly matches Some(v) ==> after.show_disassembly == v,
        settings.show_disassembly is None ==> after.show_disassembly == s.show_disassembly,
        settings.dereference_pointers matches Some(v) ==> after.deref_pointers == v,
        settings.dereference_pointers is None ==> after.deref_pointers == s.deref_pointers,
        settings.suppress_missing_source_files matches Some(v) ==> after.suppress_missing_files == v,
        settings.suppress_missing_source_files is None ==> after.suppress_missing_files == s.suppress_missing_files,
        settings.evaluation_timeout_ms matches Some(v) ==> after.evaluation_timeout_ms == v,
        settings.evaluation_timeout_ms is None ==> after.evaluation_timeout_ms == s.evaluation_timeout_ms,
        settings.summary_timeout_ms matches Some(v) ==> after.summary_timeout_ms == v,
        settings.summary_timeout_ms is None ==> after.summary_timeout_ms == s.summary_timeout_ms,
        settings.console_mode matches Some(v) ==> after.console_mode == v,
        settings.console_mode is None ==> after.console_mode == s.console_mode,
        settings.evaluate_for_hovers matches Some(v) ==> after.evaluate_for_hovers == v,
        settings.evaluate_for_hovers is None ==> after.evaluate_for_hovers == s.evaluate_for_hovers,
        settings.command_completions matches Some(v) ==> after.command_completions == v,
        settings.command_completions is None ==> after.command_completions == s.command_completions,
        settings.source_languages matches Some(v) ==> after.source_languages.deep_view()
            == v.deep_view(),
        settings.source_languages is None ==> after.source_languages.deep_view()
            == s.source_languages.deep_view(),
        settings.display_format is None ==> after.global_format == s.global_format,
        settings.display_format == Some(DisplayFormat::Auto) ==> after.global_format is Default,
        settings.display_format == Some(DisplayFormat::Decimal) ==> after.global_format is Decimal,
        settings.display_format == Some(DisplayFormat::Hex) ==> after.global_format is Hex,
        settings.display_format == Some(DisplayFormat::Binary) ==> after.global_format is Binary,
        after.python_attached == s.python_attached,
        after.current_cancellation == s.current_cancellation,
        after.terminate_on_disconnect == s.terminate_on_disconnect,
        after.no_debug == s.no_debug,
        after.source_map == s.source_map,
        after.pre_terminate_commands == s.pre_terminate_commands,
        after.exit_commands == s.exit_commands,
        after.selected_frame_changed == s.selected_frame_changed,
        after.last_goto_request == s.last_goto_request,
        after.client_caps == s.client_caps,
        after.default_expr_type == s.default_expr_type,
        after.breakpoint_mode == s.breakpoint_mode,
        after.max_summary_length == s.max_summary_length,
        after.max_instr_bytes == s.max_instr_bytes,
{
}

/// A change of the settings mentions just the capabilities that it changes, with their new value: of
/// hovers, completions and exception filters, those that differ between the session before and the
/// session afterwards. The client is told just where there is one.
pub proof fn law_only_changed_capabilities_are_mentioned(
    s: DebugSession,
    settings: AdapterSettings,
    after: DebugSession,
    filters: Seq<ExceptionBreakpointsFilterView>,
)
    requires
        settings_applied(s, settings, after),
    ensures
        ({
            let changes = capability_changes(s, settings, filters);
            let was = filters_for(filters, s.source_languages.deep_view());
            let is_now = filters_for(filters, after.source_languages.deep_view());
            let told = changes_told(s, settings, filters);
            &&& changes.flags.supports_evaluate_for_hovers is Some <==> after.evaluate_for_hovers
                != s.evaluate_for_hovers
            &&& changes.flags.supports_evaluate_for_hovers matches Some(v) ==> v
                == after.evaluate_for_hovers
            &&& changes.flags.supports_completions_request is Some <==> after.command_completions
                != s.command_completions
            &&& changes.flags.supports_completions_request matches Some(v) ==> v
                == after.command_completions
            &&& changes.exception_breakpoint_filters is Some <==> is_now != was
            &&& changes.exception_breakpoint_filters matches Some(f) ==> f == is_now
            &&& changes.flags == (CapabilityFlags {
                supports_evaluate_for_hovers: changes.flags.supports_evaluate_for_hovers,
                supports_completions_request: changes.flags.supports_completions_request,
                ..CapabilityFlags::unmentioned()
            })
            &&& told is Some <==> after.evaluate_for_hovers != s.evaluate_for_hovers
                || after.command_completions != s.command_completions || is_now != was
            &&& told matches Some(e) ==> e == EventView::Capabilities(changes)
        }),
{
}

/// The client looks at the debuggee again where it is told that all threads stopped, of which one is
/// named, for no reason. Before that it is told that what it shows is outdated, just where it
/// understands that.
pub proof fn law_clients_look_again(s: DebugSession, thread_id: u64)
    requires
        s.client_caps is Some,
    ensures
        ({
            let events = refresh_events(s, thread_id);
            &&& events.len() == 2 <==> s.client_caps->0.supports_invalidated_event == Some(true)
            &&& events.len() == 1 <==> s.client_caps->0.supports_invalidated_event != Some(true)
            &&& events.len() == 2 ==> events[0] == (EventView::Invalidated {
                thread_id: Some(thread_id as i64),
            })
            &&& events.last() matches EventView::Stopped(body) && {
                &&& body.reason.len() == 0
                &&& body.description is None
                &&& body.thread_id == Some(thread_id as i64)
                &&& body.all_threads_stopped == Some(true)
                &&& body.preserve_focus_hint is None
                &&& body.hit_breakpoint_ids is None
            }
        }),
{
    reveal_strlit("");
}

/// After a change of the settings the scripts get them first, just where scripts run. Then the client
/// is told of changed capabilities, if any, the console mode is explained just where it changed, and
/// the client looks at the debuggee again just where that does not run.
pub proof fn law_changed_settings_are_followed_in_order(
    s: DebugSession,
    settings: AdapterSettings,
    filters: Seq<ExceptionBreakpointsFilterView>,
    after: DebugSession,
    running: bool,
    selected_thread: u64,
)
    ensures
        ({
            let actions = settings_actions(s, settings, filters, after, running, selected_thread);
            let told = changes_told(s, settings, filters);
            let shown = refresh_events(after, selected_thread);
            let forwarded: int = if s.python_attached {
                1
            } else {
                0
            };
            let mentioned: int = if told is Some {
                forwarded + 1
            } else {
                forwarded
            };
            let explained: int = if after.console_mode != s.console_mode {
                mentioned + 1
            } else {
                mentioned
            };
            &&& s.python_attached ==> actions[0] is ForwardSettings
            &&& told matches Some(e) ==> actions[forwarded] == ActionView::Send(e)
            &&& after.console_mode != s.console_mode ==> actions[mentioned] is PrintConsoleMode
            &&& running ==> actions.len() == explained
            &&& !running ==> actions.len() == explained + shown.len()
            &&& !running ==> forall|i: int|
                0 <= i < shown.len() ==> actions[explained + i] == ActionView::Send(
                    #[trigger] shown[i],
                )
        }),
{
}

/// A value that is given is taken, and else the one that was stays.
pub proof fn law_given_values_come_first<T>(given: Option<T>, current: T)
    ensures
        given matches Some(v) ==> setting(given, current) == v,
        given is None ==> setting(given, current) == current,
{
}

/// The view of an action is of the same kind, and that of a send has the event that is sent.
pub proof fn law_actions_are_seen_as_they_are(action: Action)
    ensures
        action.deep_view() is Send <==> action is Send,
        action matches Action::Send(e) ==> action.deep_view()->Send_0 == e.deep_view(),
        action.deep_view() is PrintConsoleMode <==> action is PrintConsoleMode,
        action.deep_view() is ForwardSettings <==> action is ForwardSettings,
        action.deep_view() is ResetVariables <==> action is ResetVariables,
        action.deep_view() is ClearStepInTargets <==> action is ClearStepInTargets,
        action.deep_view() is DeleteAllWatchpoints <==> action is DeleteAllWatchpoints,
        action.deep_view() is SetAsyncMode <==> action is SetAsyncMode,
        action.deep_view() is SignalConfigurationDone <==> action is SignalConfigurationDone,
{
}

}
