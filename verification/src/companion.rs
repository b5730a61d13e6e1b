//! The proactive companion: a deterministic tone/follow-up policy over the
//! available persona and memory context, and a conservative planner that is
//! off by default, silent in quiet hours and beyond its limits, explains every
//! plan and turns tool ideas into confirmation requests only.
use vstd::prelude::*;
use crate::agent::{CompanionSettings, QuietHours, quiet_contains, valid_quiet_hours};
use crate::text::{
    ascii_lower, compact, compact_text, concat3, contains, contains_any,
    contains_any_chars, is_blank, lower_contains, opt_view, owned, seq_contains,
    seq_starts_with, str_views, strip_prefix, trim, trim_str, ascii_lower_chars,
};

verus! {

/// Empty when absent or of zero length.
pub open spec fn opt_text_empty(o: Option<String>) -> bool {
    o is None || o->0@.len() == 0
}

#[derive(Clone, Debug, PartialEq, Eq)]
pub struct CompanionMemorySummary {
    pub boot_summary: Option<String>,
    pub dynamic_summary: Option<String>,
    pub record_count: usize,
    pub stable_fact_count: usize,
}

impl CompanionMemorySummary {
    pub open spec fn spec_is_empty(&self) -> bool {
        self.record_count == 0 && opt_text_empty(self.boot_summary) && opt_text_empty(
            self.dynamic_summary,
        )
    }

    pub fn is_empty(&self) -> (r: bool)
        ensures
            r == self.spec_is_empty(),
    {
        self.record_count == 0 && opt_str_empty(&self.boot_summary) && opt_str_empty(
            &self.dynamic_summary,
        )
    }
}

impl Default for CompanionMemorySummary {
    fn default() -> (r: Self)
        ensures
            r.boot_summary is None && r.dynamic_summary is None && r.record_count == 0
                && r.stable_fact_count == 0,
    {
        CompanionMemorySummary {
            boot_summary: None,
            dynamic_summary: None,
            record_count: 0,
            stable_fact_count: 0,
        }
    }
}

fn opt_str_empty(o: &Option<String>) -> (r: bool)
    ensures
        r == opt_text_empty(*o),
{
    match o {
        Some(s) => s.as_str().unicode_len() == 0,
        None => true,
    }
}

#[derive(Clone, Copy, Debug, PartialEq, Eq, Structural)]
pub enum CompanionTone {
    Neutral,
    Warm,
    Direct,
    Supportive,
}

impl Default for CompanionTone {
    fn default() -> (r: Self)
        ensures
            r == CompanionTone::Neutral,
    {
        CompanionTone::Neutral
    }
}

#[derive(Clone, Debug, PartialEq, Eq)]
pub struct CompanionFollowUp {
    pub prompt: String,
    pub required: bool,
}

#[derive(Clone, Debug, PartialEq, Eq)]
pub struct CompanionContext {
    pub persona_id: Option<String>,
    pub display_name: Option<String>,
    pub relationship_state: Option<String>,
    pub memory_summary: CompanionMemorySummary,
    pub emotional_clues: Vec<String>,
    pub available: bool,
}

impl CompanionContext {
    /// A context that reports no companion information at all.
    pub fn unavailable() -> (r: CompanionContext)
        ensures
            !r.available,
            r.persona_id is None,
            r.display_name is None,
            r.relationship_state is None,
            r.memory_summary == (CompanionMemorySummary {
                boot_summary: None,
                dynamic_summary: None,
                record_count: 0,
                stable_fact_count: 0,
            }),
            r.emotional_clues@.len() == 0,
    {
        CompanionContext {
            persona_id: None,
            display_name: None,
            relationship_state: None,
            memory_summary: CompanionMemorySummary {
                boot_summary: None,
                dynamic_summary: None,
                record_count: 0,
                stable_fact_count: 0,
            },
            emotional_clues: Vec::new(),
            available: false,
        }
    }

    pub open spec fn spec_has_context(&self) -> bool {
        self.available && (self.persona_id is Some || self.relationship_state is Some
            || !self.memory_summary.spec_is_empty() || self.emotional_clues@.len() > 0)
    }

    pub fn has_context(&self) -> (r: bool)
        ensures
            r == self.spec_has_context(),
    {
        self.available && (self.persona_id.is_some() || self.relationship_state.is_some()
            || !self.memory_summary.is_empty() || self.emotional_clues.len() > 0)
    }
}

impl Default for CompanionContext {
    fn default() -> (r: Self)
        ensures
            !r.available,
            r.persona_id is None,
            r.display_name is None,
            r.relationship_state is None,
            r.memory_summary == (CompanionMemorySummary {
                boot_summary: None,
                dynamic_summary: None,
                record_count: 0,
                stable_fact_count: 0,
            }),
            r.emotional_clues@.len() == 0,
    {
        CompanionContext::unavailable()
    }
}

#[derive(Clone, Debug, PartialEq, Eq)]
pub struct CompanionPolicyDecision {
    pub tone: CompanionTone,
    pub proactive_care: bool,
    pub follow_up: Option<CompanionFollowUp>,
    pub use_persona_context: bool,
    pub use_memory_context: bool,
    pub fallback_to_existing_reply: bool,
}

impl Default for CompanionPolicyDecision {
    fn default() -> (r: Self)
        ensures
            r.tone == CompanionTone::Neutral,
            !r.proactive_care,
            r.follow_up is None,
            !r.use_persona_context,
            !r.use_memory_context,
            !r.fallback_to_existing_reply,
    {
        CompanionPolicyDecision {
            tone: CompanionTone::Neutral,
            proactive_care: false,
            follow_up: None,
            use_persona_context: false,
            use_memory_context: false,
            fallback_to_existing_reply: false,
        }
    }
}

/// Chooses tone and follow-up for a reply from companion context and signals.
pub trait CompanionPolicy {
    fn decide(&self, context: &CompanionContext, input: &CompanionInput) -> CompanionPolicyDecision;
}

#[derive(Clone, Debug, PartialEq, Eq)]
pub struct DeterministicCompanionPolicy {
    settings: CompanionSettings,
}

/// Words that mark an emotional clue as calling for a supportive tone.
pub open spec fn emotional_markers() -> Seq<Seq<char>> {
    seq![
        "焦虑"@,
        "难过"@,
        "疲惫"@,
        "压力"@,
        "担心"@,
        "sad"@,
        "anxious"@,
        "tired"@,
        "stress"@,
        "worried"@,
    ]
}

pub open spec fn emotional_signal(clue: Seq<char>) -> bool {
    contains_any(ascii_lower(clue), emotional_markers())
}

/// The follow-up question the policy offers.
pub open spec fn follow_up_prompt() -> Seq<char> {
    "你希望我继续跟进这件事吗？"@
}

/// The decision of the deterministic policy, field by field.
pub open spec fn decision_matches(
    d: CompanionPolicyDecision,
    settings: CompanionSettings,
    context: CompanionContext,
    input: CompanionInput,
) -> bool {
    let available = context.spec_has_context();
    let use_memory = available && !context.memory_summary.spec_is_empty();
    let use_persona = available && (context.persona_id is Some || context.display_name is Some);
    let supportive = exists|i: int|
        0 <= i < context.emotional_clues@.len() && emotional_signal(
            #[trigger] context.emotional_clues@[i]@,
        );
    let tone = if supportive {
        CompanionTone::Supportive
    } else if use_persona || use_memory {
        CompanionTone::Warm
    } else if input.tool_request is Some {
        CompanionTone::Direct
    } else {
        CompanionTone::Neutral
    };
    let care = settings.enabled && input.spec_has_signal();
    let follow = care && available && input.tool_request is None && (input.unfinished_task is Some
        || input.topic_continuation is Some);
    &&& d.tone == tone
    &&& d.proactive_care == care
    &&& d.use_persona_context == use_persona
    &&& d.use_memory_context == use_memory
    &&& d.fallback_to_existing_reply == !available
    &&& (d.follow_up is Some <==> follow)
    &&& (d.follow_up is Some ==> d.follow_up->0.prompt@ == follow_up_prompt()
        && !d.follow_up->0.required)
}

impl DeterministicCompanionPolicy {
    pub closed spec fn spec_settings(&self) -> CompanionSettings {
        self.settings
    }

    pub fn new(settings: CompanionSettings) -> (r: DeterministicCompanionPolicy)
        ensures
            r.spec_settings() == settings,
    {
        DeterministicCompanionPolicy { settings }
    }

    pub fn settings(&self) -> (r: &CompanionSettings)
        ensures
            *r == self.spec_settings(),
    {
        &self.settings
    }

    /// The policy's decision; see `decision_matches`.
    pub fn decide_checked(&self, context: &CompanionContext, input: &CompanionInput) -> (r:
        CompanionPolicyDecision)
        ensures
            decision_matches(r, self.spec_settings(), *context, *input),
    {
        let context_available = context.has_context();
        let use_memory_context = context_available && !context.memory_summary.is_empty();
        let use_persona_context = context_available && (context.persona_id.is_some()
            || context.display_name.is_some());
        let mut supportive = false;
        let mut i: usize = 0;
        while i < context.emotional_clues.len()
            invariant
                i <= context.emotional_clues@.len(),
                supportive <==> exists|k: int|
                    0 <= k < i && emotional_signal(#[trigger] context.emotional_clues@[k]@),
            decreases context.emotional_clues@.len() - i,
        {
            if contains_emotional_signal(context.emotional_clues[i].as_str()) {
                supportive = true;
            }
            i = i + 1;
        }
        let tone = if supportive {
            CompanionTone::Supportive
        } else if use_persona_context || use_memory_context {
            CompanionTone::Warm
        } else if input.tool_request.is_some() {
            CompanionTone::Direct
        } else {
            CompanionTone::Neutral
        };
        let proactive_care = self.settings.enabled && input.has_signal();
        let follow_up = if proactive_care && context_available && input.tool_request.is_none() && (
        input.unfinished_task.is_some() || input.topic_continuation.is_some()) {
            proof {
                reveal_strlit("你希望我继续跟进这件事吗？");
            }
            Some(CompanionFollowUp { prompt: owned("你希望我继续跟进这件事吗？"), required: false })
        } else {
            None
        };
        CompanionPolicyDecision {
            tone,
            proactive_care,
            follow_up,
            use_persona_context,
            use_memory_context,
            fallback_to_existing_reply: !context_available,
        }
    }
}

impl CompanionPolicy for DeterministicCompanionPolicy {
    fn decide(&self, context: &CompanionContext, input: &CompanionInput) -> (r: CompanionPolicyDecision)
        ensures
            decision_matches(r, self.spec_settings(), *context, *input),
    {
        self.decide_checked(context, input)
    }
}

/// Whether an emotional clue mentions one of the supportive-tone markers,
/// ASCII case-insensitively.
pub fn contains_emotional_signal(value: &str) -> (r: bool)
    ensures
        r == emotional_signal(value@),
{
    let lower = ascii_lower_chars(value);
    let needles = [
        "焦虑",
        "难过",
        "疲惫",
        "压力",
        "担心",
        "sad",
        "anxious",
        "tired",
        "stress",
        "worried",
    ];
    let r = contains_any_chars(lower.as_slice(), &needles);
    proof {
        reveal_strlit("焦虑");
        reveal_strlit("难过");
        reveal_strlit("疲惫");
        reveal_strlit("压力");
        reveal_strlit("担心");
        reveal_strlit("sad");
        reveal_strlit("anxious");
        reveal_strlit("tired");
        reveal_strlit("stress");
        reveal_strlit("worried");
        assert(str_views(needles@) =~= emotional_markers());
    }
    r
}

#[derive(Clone, Copy, Debug, PartialEq, Eq, Structural)]
pub enum CompanionTrigger {
    ReminderDue,
    UnfinishedTask,
    LongIdleCheckIn,
    TopicContinuation,
    PeriodicSummary,
    RelationshipMilestone,
}

#[derive(Clone, Copy, Debug, PartialEq, Eq, Structural)]
pub enum CompanionAction {
    MessageOnly,
    SuggestNextStep,
    SummarizeStage,
    AskPermissionForTool,
}

#[derive(Clone, Debug, PartialEq, Eq)]
pub struct CompanionPlan {
    pub trigger: CompanionTrigger,
    pub action: CompanionAction,
    pub reason: String,
    pub message: String,
    pub requires_user_confirmation: bool,
}

/// The signals one companion check sees.
#[derive(Clone, Debug, PartialEq, Eq)]
pub struct CompanionInput {
    pub now_minute_of_day: u16,
    pub proactive_in_session: u32,
    pub proactive_today: u32,
    pub idle_minutes: u64,
    pub reminder_due: bool,
    pub unfinished_task: Option<String>,
    pub topic_continuation: Option<String>,
    pub periodic_summary_due: bool,
    pub relationship_milestone: Option<String>,
    pub tool_request: Option<String>,
}

/// The prompt with an optional `companion check:` lead-in removed, trimmed.
pub open spec fn normalized_companion_prompt(prompt: Seq<char>) -> Seq<char> {
    let t = trim(prompt);
    if seq_starts_with(t, "companion check:"@) {
        trim(t.skip(16))
    } else {
        t
    }
}

/// The trimmed, non-empty text after the first of two markers that `s` starts with.
pub open spec fn marked_value(s: Seq<char>, first: Seq<char>, second: Seq<char>) -> Option<
    Seq<char>,
> {
    let v = if seq_starts_with(s, first) {
        Some(trim(s.skip(first.len() as int)))
    } else if seq_starts_with(s, second) {
        Some(trim(s.skip(second.len() as int)))
    } else {
        None
    };
    match v {
        Some(t) => if t.len() > 0 {
            Some(t)
        } else {
            None
        },
        None => None,
    }
}

/// The companion signals that `from_prompt` reads out of a prompt.
pub open spec fn input_from_prompt_matches(
    r: CompanionInput,
    prompt: Seq<char>,
    milestone: Option<Seq<char>>,
) -> bool {
    let n = normalized_companion_prompt(prompt);
    let lower = ascii_lower(n);
    &&& r.reminder_due == (seq_contains(lower, "reminder due"@) || seq_contains(n, "提醒到期"@))
    &&& opt_view(r.unfinished_task) == marked_value(n, "unfinished task:"@, "未完成任务："@)
    &&& opt_view(r.topic_continuation) == marked_value(n, "continue topic:"@, "继续话题："@)
    &&& r.periodic_summary_due == (seq_contains(lower, "periodic summary"@) || seq_contains(
        n,
        "阶段总结"@,
    ))
    &&& opt_view(r.relationship_milestone) == milestone
    &&& opt_view(r.tool_request) == marked_value(n, "tool request:"@, "工具请求："@)
    &&& r.idle_minutes == (if seq_contains(lower, "long idle"@) || seq_contains(n, "长时间空闲"@) {
        120u64
    } else {
        0u64
    })
    &&& r.now_minute_of_day == 0
    &&& r.proactive_in_session == 0
    &&& r.proactive_today == 0
}

fn marked_value_of(s: &str, first: &str, second: &str) -> (r: Option<String>)
    ensures
        opt_view(r) == marked_value(s@, first@, second@),
{
    let stripped = match strip_prefix(s, first) {
        Some(rest) => Some(rest),
        None => strip_prefix(s, second),
    };
    match stripped {
        Some(rest) => {
            let t = trim_str(rest);
            if t.unicode_len() > 0 {
                Some(owned(t))
            } else {
                None
            }
        },
        None => None,
    }
}

impl Default for CompanionInput {
    fn default() -> (r: Self)
        ensures
            !r.spec_has_signal(),
            r.now_minute_of_day == 0 && r.proactive_in_session == 0 && r.proactive_today == 0,
            r.idle_minutes == 0,
    {
        CompanionInput::quiet()
    }
}

impl CompanionInput {
    /// The all-quiet input: no signal, counters and clock at zero.
    fn quiet() -> (r: CompanionInput)
        ensures
            r == (CompanionInput {
                now_minute_of_day: 0,
                proactive_in_session: 0,
                proactive_today: 0,
                idle_minutes: 0,
                reminder_due: false,
                unfinished_task: None,
                topic_continuation: None,
                periodic_summary_due: false,
                relationship_milestone: None,
                tool_request: None,
            }),
            !r.spec_has_signal(),
    {
        CompanionInput {
            now_minute_of_day: 0,
            proactive_in_session: 0,
            proactive_today: 0,
            idle_minutes: 0,
            reminder_due: false,
            unfinished_task: None,
            topic_continuation: None,
            periodic_summary_due: false,
            relationship_milestone: None,
            tool_request: None,
        }
    }

    /// Reads companion signals out of a user prompt; see `input_from_prompt_matches`.
    pub fn from_prompt(prompt: &str, relationship_milestone: Option<String>) -> (r: CompanionInput)
        ensures
            input_from_prompt_matches(r, prompt@, opt_view(relationship_milestone)),
    {
        let t = trim_str(prompt);
        let normalized = match strip_prefix(t, "companion check:") {
            Some(rest) => trim_str(rest),
            None => t,
        };
        proof {
            reveal_strlit("companion check:");
        }
        let reminder_due = lower_contains(normalized, "reminder due") || contains(
            normalized,
            "提醒到期",
        );
        let unfinished_task = marked_value_of(normalized, "unfinished task:", "未完成任务：");
        let topic_continuation = marked_value_of(normalized, "continue topic:", "继续话题：");
        let periodic_summary_due = lower_contains(normalized, "periodic summary") || contains(
            normalized,
            "阶段总结",
        );
        let tool_request = marked_value_of(normalized, "tool request:", "工具请求：");
        let idle_minutes: u64 = if lower_contains(normalized, "long idle") || contains(
            normalized,
            "长时间空闲",
        ) {
            120
        } else {
            0
        };
        CompanionInput {
            now_minute_of_day: 0,
            proactive_in_session: 0,
            proactive_today: 0,
            idle_minutes,
            reminder_due,
            unfinished_task,
            topic_continuation,
            periodic_summary_due,
            relationship_milestone,
            tool_request,
        }
    }

    pub open spec fn spec_has_signal(&self) -> bool {
        self.reminder_due || self.unfinished_task is Some || self.topic_continuation is Some
            || self.periodic_summary_due || self.relationship_milestone is Some
            || self.tool_request is Some || self.idle_minutes >= 120
    }

    pub fn has_signal(&self) -> (r: bool)
        ensures
            r == self.spec_has_signal(),
    {
        self.reminder_due || self.unfinished_task.is_some() || self.topic_continuation.is_some()
            || self.periodic_summary_due || self.relationship_milestone.is_some()
            || self.tool_request.is_some() || self.idle_minutes >= 120
    }
}

/// Plans proactive companion messages from the signals of one check.
pub trait CompanionPlanner {
    fn plan(&self, input: CompanionInput) -> Vec<CompanionPlan>;
}

#[derive(Clone, Debug, PartialEq, Eq)]
pub struct SafeCompanionPlanner {
    settings: CompanionSettings,
}

/// A plan by its parts: trigger, action, reason, message.
pub type PlanParts = (CompanionTrigger, CompanionAction, Seq<char>, Seq<char>);

pub open spec fn plan_parts(p: CompanionPlan) -> PlanParts {
    (p.trigger, p.action, p.reason@, p.message@)
}

/// Proactive planning is permitted: enabled, under both limits, outside quiet hours.
pub open spec fn planning_allowed(settings: CompanionSettings, input: CompanionInput) -> bool {
    &&& settings.enabled
    &&& input.proactive_in_session < settings.max_proactive_per_session
    &&& input.proactive_today < settings.max_proactive_per_day
    &&& !(settings.quiet_hours is Some && quiet_contains(
        settings.quiet_hours->0.start_minute,
        settings.quiet_hours->0.end_minute,
        input.now_minute_of_day,
    ))
}

/// The plan the strongest signal calls for, before the tool-request override.
pub open spec fn signal_plan(input: CompanionInput) -> Option<PlanParts> {
    if input.reminder_due {
        Some(
            (
                CompanionTrigger::ReminderDue,
                CompanionAction::MessageOnly,
                "a reminder is due"@,
                "提醒：有一项到期事项需要你留意。"@,
            ),
        )
    } else if input.unfinished_task is Some {
        Some(
            (
                CompanionTrigger::UnfinishedTask,
                CompanionAction::SuggestNextStep,
                "an unfinished task was observed"@,
                "轻提示：还可以继续处理“"@ + compact_text(input.unfinished_task->0@, 80)
                    + "”。"@,
            ),
        )
    } else if input.idle_minutes >= 120 {
        Some(
            (
                CompanionTrigger::LongIdleCheckIn,
                CompanionAction::MessageOnly,
                "the session has been idle for an extended period"@,
                "好久没有继续了，回来时可以从上次停下的地方接着做。"@,
            ),
        )
    } else if input.topic_continuation is Some {
        Some(
            (
                CompanionTrigger::TopicContinuation,
                CompanionAction::SuggestNextStep,
                "recent context suggests a topic can be continued"@,
                "可以继续关注“"@ + compact_text(input.topic_continuation->0@, 80) + "”。"@,
            ),
        )
    } else if input.periodic_summary_due {
        Some(
            (
                CompanionTrigger::PeriodicSummary,
                CompanionAction::SummarizeStage,
                "a bounded stage summary is due"@,
                "阶段小结：可以整理一下当前进展、未完成事项和下一步。"@,
            ),
        )
    } else if input.relationship_milestone is Some {
        Some(
            (
                CompanionTrigger::RelationshipMilestone,
                CompanionAction::MessageOnly,
                "a recent relationship or context milestone changed"@,
                "最近的上下文有变化："@ + compact_text(input.relationship_milestone->0@, 80)
                    + "。"@,
            ),
        )
    } else {
        None
    }
}

/// The confirmation request that a tool idea becomes.
pub open spec fn tool_plan(tool: Seq<char>) -> PlanParts {
    (
        CompanionTrigger::UnfinishedTask,
        CompanionAction::AskPermissionForTool,
        "a proactive tool action was suggested"@,
        "如果你确认，我可以请求执行："@ + compact_text(tool, 80) + "。"@,
    )
}

/// A plan survives unless a reason is required and its reason is blank.
pub open spec fn kept(settings: CompanionSettings, p: PlanParts) -> Seq<PlanParts> {
    if settings.require_reason && is_blank(p.2) {
        Seq::empty()
    } else {
        seq![p]
    }
}

/// All plans for one check, in order.
pub open spec fn expected_plans(settings: CompanionSettings, input: CompanionInput) -> Seq<
    PlanParts,
> {
    if !planning_allowed(settings, input) || !input.spec_has_signal() {
        Seq::empty()
    } else if input.tool_request is Some {
        if settings.allow_tool_requests {
            kept(settings, tool_plan(input.tool_request->0@))
        } else {
            Seq::empty()
        }
    } else {
        match signal_plan(input) {
            Some(p) => kept(settings, p),
            None => Seq::empty(),
        }
    }
}

/// The planner's output: the expected plans, and confirmation asked exactly for tool actions.
pub open spec fn plans_match(
    r: Seq<CompanionPlan>,
    settings: CompanionSettings,
    input: CompanionInput,
) -> bool {
    &&& r.map_values(|p: CompanionPlan| plan_parts(p)) == expected_plans(settings, input)
    &&& confirmation_marked(r)
}

/// Each plan asks for confirmation exactly when its action is a tool request.
pub open spec fn confirmation_marked(r: Seq<CompanionPlan>) -> bool {
    forall|i: int|
        0 <= i < r.len() ==> (#[trigger] r[i]).requires_user_confirmation == (r[i].action
            == CompanionAction::AskPermissionForTool)
}

impl SafeCompanionPlanner {
    pub fn new(settings: CompanionSettings) -> (r: SafeCompanionPlanner)
        ensures
            r.spec_settings() == settings,
    {
        SafeCompanionPlanner { settings }
    }

    pub fn settings(&self) -> (r: &CompanionSettings)
        ensures
            *r == self.spec_settings(),
    {
        &self.settings
    }

    pub closed spec fn spec_settings(&self) -> CompanionSettings {
        self.settings
    }

    fn allowed(&self, input: &CompanionInput) -> (r: bool)
        ensures
            r == planning_allowed(self.settings, *input),
    {
        self.settings.enabled && input.proactive_in_session < self.settings.max_proactive_per_session
            && input.proactive_today < self.settings.max_proactive_per_day && !match
            self.settings.quiet_hours {
            Some(hours) => hours.contains(input.now_minute_of_day),
            None => false,
        }
    }

    fn push(
        &self,
        plans: &mut Vec<CompanionPlan>,
        trigger: CompanionTrigger,
        action: CompanionAction,
        reason: String,
        message: String,
    )
        requires
            confirmation_marked(old(plans)@),
        ensures
            confirmation_marked(final(plans)@),
            final(plans)@.map_values(|p: CompanionPlan| plan_parts(p)) == old(plans)@.map_values(
                |p: CompanionPlan| plan_parts(p),
            ) + kept(self.settings, (trigger, action, reason@, message@)),
            forall|i: int|
                0 <= i < old(plans)@.len() ==> #[trigger] final(plans)@[i] == old(plans)@[i],
            final(plans)@.len() > old(plans)@.len() ==> final(plans)@.last().requires_user_confirmation
                == (action == CompanionAction::AskPermissionForTool),
    {
        if self.settings.require_reason && crate::text::is_blank_str(reason.as_str()) {
            assert(old(plans)@.map_values(|p: CompanionPlan| plan_parts(p)) + Seq::empty()
                =~= plans@.map_values(|p: CompanionPlan| plan_parts(p)));
            return;
        }
        let requires_user_confirmation = match action {
            CompanionAction::AskPermissionForTool => true,
            _ => false,
        };
        let ghost before = plans@;
        plans.push(
            CompanionPlan { trigger, action, reason, message, requires_user_confirmation },
        );
        assert(plans@.map_values(|p: CompanionPlan| plan_parts(p)) =~= before.map_values(
            |p: CompanionPlan| plan_parts(p),
        ) + kept(self.settings, (trigger, action, reason@, message@)));
    }

    /// The plans for one check; see `expected_plans`.
    pub fn plan_checked(&self, input: CompanionInput) -> (r: Vec<CompanionPlan>)
        ensures
            plans_match(r@, self.spec_settings(), input),
    {
        let mut plans: Vec<CompanionPlan> = Vec::new();
        assert(plans@.map_values(|p: CompanionPlan| plan_parts(p)) =~= Seq::empty());
        if !self.allowed(&input) || !input.has_signal() {
            assert(plans@.map_values(|p: CompanionPlan| plan_parts(p)) =~= Seq::empty());
            return plans;
        }
        proof {
            reveal_strlit("a reminder is due");
            reveal_strlit("an unfinished task was observed");
            reveal_strlit("the session has been idle for an extended period");
            reveal_strlit("recent context suggests a topic can be continued");
            reveal_strlit("a bounded stage summary is due");
            reveal_strlit("a recent relationship or context milestone changed");
            reveal_strlit("a proactive tool action was suggested");
        }
        match &input.tool_request {
            Some(tool) => {
                if self.settings.allow_tool_requests {
                    let message = concat3(
                        "如果你确认，我可以请求执行：",
                        compact(tool.as_str(), 80).as_str(),
                        "。",
                    );
                    self.push(
                        &mut plans,
                        CompanionTrigger::UnfinishedTask,
                        CompanionAction::AskPermissionForTool,
                        owned("a proactive tool action was suggested"),
                        message,
                    );
                } else {
                    assert(plans@.map_values(|p: CompanionPlan| plan_parts(p)) =~= Seq::empty());
                }
                return plans;
            },
            None => {},
        }
        if input.reminder_due {
            self.push(
                &mut plans,
                CompanionTrigger::ReminderDue,
                CompanionAction::MessageOnly,
                owned("a reminder is due"),
                owned("提醒：有一项到期事项需要你留意。"),
            );
        } else if input.unfinished_task.is_some() {
            let task = input.unfinished_task.as_ref().unwrap();
            let message = concat3("轻提示：还可以继续处理“", compact(task.as_str(), 80).as_str(), "”。");
            self.push(
                &mut plans,
                CompanionTrigger::UnfinishedTask,
                CompanionAction::SuggestNextStep,
                owned("an unfinished task was observed"),
                message,
            );
        } else if input.idle_minutes >= 120 {
            self.push(
                &mut plans,
                CompanionTrigger::LongIdleCheckIn,
                CompanionAction::MessageOnly,
                owned("the session has been idle for an extended period"),
                owned("好久没有继续了，回来时可以从上次停下的地方接着做。"),
            );
        } else if input.topic_continuation.is_some() {
            let topic = input.topic_continuation.as_ref().unwrap();
            let message = concat3("可以继续关注“", compact(topic.as_str(), 80).as_str(), "”。");
            self.push(
                &mut plans,
                CompanionTrigger::TopicContinuation,
                CompanionAction::SuggestNextStep,
                owned("recent context suggests a topic can be continued"),
                message,
            );
        } else if input.periodic_summary_due {
            self.push(
                &mut plans,
                CompanionTrigger::PeriodicSummary,
                CompanionAction::SummarizeStage,
                owned("a bounded stage summary is due"),
                owned("阶段小结：可以整理一下当前进展、未完成事项和下一步。"),
            );
        } else if input.relationship_milestone.is_some() {
            let change = input.relationship_milestone.as_ref().unwrap();
            let message = concat3("最近的上下文有变化：", compact(change.as_str(), 80).as_str(), "。");
            self.push(
                &mut plans,
                CompanionTrigger::RelationshipMilestone,
                CompanionAction::MessageOnly,
                owned("a recent relationship or context milestone changed"),
                message,
            );
        }
        plans
    }
}

impl CompanionPlanner for SafeCompanionPlanner {
    fn plan(&self, input: CompanionInput) -> (r: Vec<CompanionPlan>)
        ensures
            plans_match(r@, self.spec_settings(), input),
    {
        self.plan_checked(input)
    }
}

/// A quiet-hours window, as `QuietHours::new` makes it.
pub fn quiet_hours(start_minute: u16, end_minute: u16) -> (r: Option<QuietHours>)
    ensures
        r is Some <==> valid_quiet_hours(start_minute, end_minute),
        r is Some ==> r->0.start_minute == start_minute && r->0.end_minute == end_minute,
{
    QuietHours::new(start_minute, end_minute)
}

/// Proactive planning stays silent unless the user enabled it.
pub proof fn law_disabled_companion_never_plans(settings: CompanionSettings, input: CompanionInput)
    requires
        !settings.enabled,
    ensures
        expected_plans(settings, input).len() == 0,
{
}

/// Inside quiet hours no plan is made, whatever the signals.
pub proof fn law_quiet_hours_suppress_plans(settings: CompanionSettings, input: CompanionInput)
    requires
        settings.quiet_hours is Some,
        quiet_contains(
            settings.quiet_hours->0.start_minute,
            settings.quiet_hours->0.end_minute,
            input.now_minute_of_day,
        ),
    ensures
        expected_plans(settings, input).len() == 0,
{
}

/// Once the per-session or the per-day limit is reached, no plan is made.
pub proof fn law_frequency_limits_suppress_plans(settings: CompanionSettings, input: CompanionInput)
    requires
        input.proactive_in_session >= settings.max_proactive_per_session
            || input.proactive_today >= settings.max_proactive_per_day,
    ensures
        expected_plans(settings, input).len() == 0,
{
}

/// A check yields at most one plan.
pub proof fn law_at_most_one_plan(settings: CompanionSettings, input: CompanionInput)
    ensures
        expected_plans(settings, input).len() <= 1,
{
}

/// A tool idea never becomes anything but a request for permission, and it
/// yields nothing at all unless tool requests are allowed.
pub proof fn law_tool_ideas_only_ask_permission(settings: CompanionSettings, input: CompanionInput)
    requires
        input.tool_request is Some,
    ensures
        forall|i: int|
            0 <= i < expected_plans(settings, input).len() ==> (#[trigger] expected_plans(
                settings,
                input,
            )[i]).1 == CompanionAction::AskPermissionForTool,
        !settings.allow_tool_requests ==> expected_plans(settings, input).len() == 0,
{
}

/// When reasons are required, every plan carries a non-blank reason.
pub proof fn law_plans_carry_reasons(settings: CompanionSettings, input: CompanionInput)
    requires
        settings.require_reason,
    ensures
        forall|i: int|
            0 <= i < expected_plans(settings, input).len() ==> !is_blank(
                (#[trigger] expected_plans(settings, input)[i]).2,
            ),
{
}

/// With no signal in the input, no plan is made.
pub proof fn law_no_signal_no_plan(settings: CompanionSettings, input: CompanionInput)
    requires
        !input.spec_has_signal(),
    ensures
        expected_plans(settings, input).len() == 0,
{
}

} // verus!
