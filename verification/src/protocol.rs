//! The parts of debug adapter messages that the session fills in, each with its mathematical view.
use vstd::prelude::*;

verus! {

/// Where a source text comes from: a file, or a disassembly under a reference.
#[derive(Debug)]
pub struct Source {
    pub name: Option<String>,
    pub path: Option<String>,
    pub source_reference: Option<i64>,
}

#[verifier::ext_equal]
pub struct SourceView {
    pub name: Option<Seq<char>>,
    pub path: Option<Seq<char>>,
    pub source_reference: Option<i64>,
}

impl DeepView for Source {
    type V = SourceView;

    open spec fn deep_view(&self) -> SourceView {
        SourceView {
            name: self.name.deep_view(),
            path: self.path.deep_view(),
            source_reference: self.source_reference,
        }
    }
}

/// A module of the debuggee.
#[derive(Debug)]
pub struct Module {
    pub id: String,
    pub name: String,
    pub path: Option<String>,
    pub address_range: Option<String>,
    pub symbol_status: Option<String>,
    pub symbol_file_path: Option<String>,
}

#[verifier::ext_equal]
pub struct ModuleView {
    pub id: Seq<char>,
    pub name: Seq<char>,
    pub path: Option<Seq<char>>,
    pub address_range: Option<Seq<char>>,
    pub symbol_status: Option<Seq<char>>,
    pub symbol_file_path: Option<Seq<char>>,
}

impl DeepView for Module {
    type V = ModuleView;

    open spec fn deep_view(&self) -> ModuleView {
        ModuleView {
            id: self.id@,
            name: self.name@,
            path: self.path.deep_view(),
            address_range: self.address_range.deep_view(),
            symbol_status: self.symbol_status.deep_view(),
            symbol_file_path: self.symbol_file_path.deep_view(),
        }
    }
}

/// A kind of exception at which the debuggee can be made to stop.
#[derive(Debug)]
pub struct ExceptionBreakpointsFilter {
    pub filter: String,
    pub label: String,
    pub default_: Option<bool>,
    pub supports_condition: Option<bool>,
}

#[verifier::ext_equal]
pub struct ExceptionBreakpointsFilterView {
    pub filter: Seq<char>,
    pub label: Seq<char>,
    pub default_: Option<bool>,
    pub supports_condition: Option<bool>,
}

impl DeepView for ExceptionBreakpointsFilter {
    type V = ExceptionBreakpointsFilterView;

    open spec fn deep_view(&self) -> ExceptionBreakpointsFilterView {
        ExceptionBreakpointsFilterView {
            filter: self.filter@,
            label: self.label@,
            default_: self.default_,
            supports_condition: self.supports_condition,
        }
    }
}

impl Clone for ExceptionBreakpointsFilter {
    fn clone(&self) -> (r: Self)
        ensures
            r == *self,
    {
        ExceptionBreakpointsFilter {
            filter: self.filter.clone(),
            label: self.label.clone(),
            default_: self.default_,
            supports_condition: self.supports_condition,
        }
    }
}

/// The capabilities that are plain switches. One that is not given is not mentioned to the client.
#[derive(Clone, Copy, Debug, PartialEq, Eq, Structural)]
pub struct CapabilityFlags {
    pub support_terminate_debuggee: Option<bool>,
    pub supports_cancel_request: Option<bool>,
    pub supports_clipboard_context: Option<bool>,
    pub supports_completions_request: Option<bool>,
    pub supports_conditional_breakpoints: Option<bool>,
    pub supports_configuration_done_request: Option<bool>,
    pub supports_data_breakpoints: Option<bool>,
    pub supports_data_breakpoint_bytes: Option<bool>,
    pub supports_delayed_stack_trace_loading: Option<bool>,
    pub supports_disassemble_request: Option<bool>,
    pub supports_evaluate_for_hovers: Option<bool>,
    pub supports_exception_filter_options: Option<bool>,
    pub supports_exception_info_request: Option<bool>,
    pub supports_function_breakpoints: Option<bool>,
    pub supports_goto_targets_request: Option<bool>,
    pub supports_hit_conditional_breakpoints: Option<bool>,
    pub supports_instruction_breakpoints: Option<bool>,
    pub supports_log_points: Option<bool>,
    pub supports_modules_request: Option<bool>,
    pub supports_read_memory_request: Option<bool>,
    pub supports_restart_request: Option<bool>,
    pub supports_set_variable: Option<bool>,
    pub supports_step_in_targets_request: Option<bool>,
    pub supports_stepping_granularity: Option<bool>,
    pub supports_write_memory_request: Option<bool>,
}

/// What the adapter tells the client that it can do.
#[derive(Debug)]
pub struct Capabilities {
    pub exception_breakpoint_filters: Option<Vec<ExceptionBreakpointsFilter>>,
    pub flags: CapabilityFlags,
}

#[verifier::ext_equal]
pub struct CapabilitiesView {
    pub exception_breakpoint_filters: Option<Seq<ExceptionBreakpointsFilterView>>,
    pub flags: CapabilityFlags,
}

impl DeepView for Capabilities {
    type V = CapabilitiesView;

    open spec fn deep_view(&self) -> CapabilitiesView {
        CapabilitiesView {
            exception_breakpoint_filters: self.exception_breakpoint_filters.deep_view(),
            flags: self.flags,
        }
    }
}

/// The debuggee stopped.
#[derive(Debug)]
pub struct StoppedEventBody {
    pub reason: String,
    pub description: Option<String>,
    pub thread_id: Option<i64>,
    pub all_threads_stopped: Option<bool>,
    pub preserve_focus_hint: Option<bool>,
    pub hit_breakpoint_ids: Option<Vec<i64>>,
}

#[verifier::ext_equal]
pub struct StoppedEventView {
    pub reason: Seq<char>,
    pub description: Option<Seq<char>>,
    pub thread_id: Option<i64>,
    pub all_threads_stopped: Option<bool>,
    pub preserve_focus_hint: Option<bool>,
    pub hit_breakpoint_ids: Option<Seq<i64>>,
}

impl DeepView for StoppedEventBody {
    type V = StoppedEventView;

    open spec fn deep_view(&self) -> StoppedEventView {
        StoppedEventView {
            reason: self.reason@,
            description: self.description.deep_view(),
            thread_id: self.thread_id,
            all_threads_stopped: self.all_threads_stopped,
            preserve_focus_hint: self.preserve_focus_hint,
            hit_breakpoint_ids: self.hit_breakpoint_ids.deep_view(),
        }
    }
}

/// An event that the session sends to the client.
#[derive(Debug)]
#[allow(inconsistent_fields)]
pub enum Event {
    Output { category: Option<String>, output: String },
    Capabilities(Capabilities),
    Invalidated { thread_id: Option<i64> },
    Stopped(StoppedEventBody),
    Continued { thread_id: i64, all_threads_continued: Option<bool> },
    Exited { exit_code: i64 },
    Terminated,
    Module { reason: String, module: Module },
}

#[allow(inconsistent_fields)]
pub enum EventView {
    Output { category: Option<Seq<char>>, output: Seq<char> },
    Capabilities(CapabilitiesView),
    Invalidated { thread_id: Option<i64> },
    Stopped(StoppedEventView),
    Continued { thread_id: i64, all_threads_continued: Option<bool> },
    Exited { exit_code: i64 },
    Terminated,
    Module { reason: Seq<char>, module: ModuleView },
}

impl DeepView for Event {
    type V = EventView;

    open spec fn deep_view(&self) -> EventView {
        match self {
            Event::Output { category, output } => EventView::Output {
                category: category.deep_view(),
                output: output@,
            },
            Event::Capabilities(c) => EventView::Capabilities(c.deep_view()),
            Event::Invalidated { thread_id } => EventView::Invalidated { thread_id: *thread_id },
            Event::Stopped(body) => EventView::Stopped(body.deep_view()),
            Event::Continued { thread_id, all_threads_continued } => EventView::Continued {
                thread_id: *thread_id,
                all_threads_continued: *all_threads_continued,
            },
            Event::Exited { exit_code } => EventView::Exited { exit_code: *exit_code },
            Event::Terminated => EventView::Terminated,
            Event::Module { reason, module } => EventView::Module {
                reason: reason@,
                module: module.deep_view(),
            },
        }
    }
}

/// The view of a source, a module or an exception filter has each of its parts, written as it is.
pub proof fn law_descriptions_are_seen_as_they_are(
    source: Source,
    module: Module,
    filter: ExceptionBreakpointsFilter,
)
    ensures
        source.deep_view().name is Some == source.name is Some,
        source.name matches Some(name) ==> source.deep_view().name->0 == name@,
        source.deep_view().path is Some == source.path is Some,
        source.path matches Some(path) ==> source.deep_view().path->0 == path@,
        source.deep_view().source_reference == source.source_reference,
        module.deep_view().id == module.id@,
        module.deep_view().name == module.name@,
        module.deep_view().path is Some == module.path is Some,
        module.path matches Some(path) ==> module.deep_view().path->0 == path@,
        module.deep_view().address_range is Some == module.address_range is Some,
        module.address_range matches Some(range) ==> module.deep_view().address_range->0 == range@,
        module.deep_view().symbol_status is Some == module.symbol_status is Some,
        module.symbol_status matches Some(status) ==> module.deep_view().symbol_status->0
            == status@,
        module.deep_view().symbol_file_path is Some == module.symbol_file_path is Some,
        module.symbol_file_path matches Some(path) ==> module.deep_view().symbol_file_path->0
            == path@,
        filter.deep_view().filter == filter.filter@,
        filter.deep_view().label == filter.label@,
        filter.deep_view().default_ == filter.default_,
        filter.deep_view().supports_condition == filter.supports_condition,
{
}

/// The view of capabilities has the same switches, and the views of the same filters in their order.
pub proof fn law_capabilities_are_seen_as_they_are(caps: Capabilities)
    ensures
        caps.deep_view().flags == caps.flags,
        caps.deep_view().exception_breakpoint_filters is Some
            == caps.exception_breakpoint_filters is Some,
        caps.exception_breakpoint_filters matches Some(filters) ==> {
            let seen = caps.deep_view().exception_breakpoint_filters->0;
            &&& seen.len() == filters@.len()
            &&& forall|i: int|
                0 <= i < seen.len() ==> #[trigger] seen[i] == filters@[i].deep_view()
        },
{
}

/// The view of a stop has each of its parts, written as it is.
pub proof fn law_stops_are_seen_as_they_are(body: StoppedEventBody)
    ensures
        body.deep_view().reason == body.reason@,
        body.deep_view().description is Some == body.description is Some,
        body.description matches Some(text) ==> body.deep_view().description->0 == text@,
        body.deep_view().thread_id == body.thread_id,
        body.deep_view().all_threads_stopped == body.all_threads_stopped,
        body.deep_view().preserve_focus_hint == body.preserve_focus_hint,
        body.deep_view().hit_breakpoint_ids is Some == body.hit_breakpoint_ids is Some,
        body.hit_breakpoint_ids matches Some(ids) ==> {
            let seen = body.deep_view().hit_breakpoint_ids->0;
            &&& seen.len() == ids@.len()
            &&& forall|i: int| 0 <= i < seen.len() ==> #[trigger] seen[i] == ids@[i]
        },
{
}

/// The view of an event is of the same kind and has each of its parts.
pub proof fn law_events_are_seen_as_they_are(event: Event)
    ensures
        match event {
            Event::Output { category, output } => event.deep_view() matches EventView::Output {
                category: seen,
                output: text,
            } && text == output@ && seen is Some == category is Some && (category matches Some(
                c,
            ) ==> seen->0 == c@),
            Event::Capabilities(caps) => event.deep_view() matches EventView::Capabilities(seen)
                && seen == caps.deep_view(),
            Event::Invalidated { thread_id } => event.deep_view() matches EventView::Invalidated {
                thread_id: seen,
            } && seen == thread_id,
            Event::Stopped(body) => event.deep_view() matches EventView::Stopped(seen) && seen
                == body.deep_view(),
            Event::Continued { thread_id, all_threads_continued } => event.deep_view()
                matches EventView::Continued { thread_id: thread, all_threads_continued: all }
                && thread == thread_id && all == all_threads_continued,
            Event::Exited { exit_code } => event.deep_view() matches EventView::Exited {
                exit_code: seen,
            } && seen == exit_code,
            Event::Terminated => event.deep_view() is Terminated,
            Event::Module { reason, module } => event.deep_view() matches EventView::Module {
                reason: text,
                module: seen,
            } && text == reason@ && seen == module.deep_view(),
        },
{
}

}
