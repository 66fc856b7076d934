use vstd::prelude::*;

use crate::link_status::LinkState;

verus! {

/// M2PA link states per RFC 4165 Section 4.
///
/// ```text
/// Out of Service → Not Aligned → Aligned → Proving → Aligned Ready → In Service
///                                                          ↑              |
///                                                          └──────────────┘
///                                                        (processor outage recovery)
/// ```
#[derive(Debug, Clone, Copy, PartialEq, Eq, Structural)]
pub enum M2paState {
    OutOfService,
    NotAligned,
    Aligned,
    Proving,
    AlignedReady,
    InService,
}

/// The state the link moves to from `s` when the peer's Link Status `ls`
/// arrives. Every pair not listed takes the link out of service.
pub open spec fn next_state(s: M2paState, ls: LinkState) -> M2paState {
    match (s, ls) {
        (M2paState::OutOfService, LinkState::Alignment) => M2paState::NotAligned,
        (M2paState::NotAligned, LinkState::Alignment) => M2paState::Aligned,
        (M2paState::Aligned, LinkState::ProvingNormal) => M2paState::Proving,
        (M2paState::Aligned, LinkState::ProvingEmergency) => M2paState::Proving,
        (M2paState::Proving, LinkState::Ready) => M2paState::AlignedReady,
        (M2paState::Proving, LinkState::ProvingNormal) => M2paState::Proving,
        (M2paState::Proving, LinkState::ProvingEmergency) => M2paState::Proving,
        (M2paState::AlignedReady, LinkState::Ready) => M2paState::InService,
        (M2paState::InService, LinkState::ProcessorOutage) => M2paState::AlignedReady,
        (M2paState::AlignedReady, LinkState::ProcessorRecovered) => M2paState::InService,
        (M2paState::InService, LinkState::Busy) => M2paState::InService,
        (M2paState::InService, LinkState::BusyEnded) => M2paState::InService,
        _ => M2paState::OutOfService,
    }
}

/// The state reached from `s` after the Link Status messages `inputs`, in order.
pub open spec fn run(s: M2paState, inputs: Seq<LinkState>) -> M2paState
    decreases inputs.len(),
{
    if inputs.len() == 0 {
        s
    } else {
        run(next_state(s, inputs[0]), inputs.drop_first())
    }
}

/// How far along the alignment lifecycle a state stands (Out of Service is 0,
/// In Service is 5).
pub open spec fn stage(s: M2paState) -> nat {
    match s {
        M2paState::OutOfService => 0,
        M2paState::NotAligned => 1,
        M2paState::Aligned => 2,
        M2paState::Proving => 3,
        M2paState::AlignedReady => 4,
        M2paState::InService => 5,
    }
}

/// The display name of a link state.
pub open spec fn m2pa_state_name(s: M2paState) -> Seq<char> {
    match s {
        M2paState::OutOfService => "Out of Service"@,
        M2paState::NotAligned => "Not Aligned"@,
        M2paState::Aligned => "Aligned"@,
        M2paState::Proving => "Proving"@,
        M2paState::AlignedReady => "Aligned Ready"@,
        M2paState::InService => "In Service"@,
    }
}

impl M2paState {
    /// The display name, e.g. "Out of Service".
    pub fn to_string(&self) -> (r: String)
        ensures
            r@ == m2pa_state_name(*self),
    {
        match self {
            Self::OutOfService => String::from_str("Out of Service"),
            Self::NotAligned => String::from_str("Not Aligned"),
            Self::Aligned => String::from_str("Aligned"),
            Self::Proving => String::from_str("Proving"),
            Self::AlignedReady => String::from_str("Aligned Ready"),
            Self::InService => String::from_str("In Service"),
        }
    }
}

/// M2PA link state machine.
///
/// Tracks the current state and provides state transitions based on
/// received Link Status messages per RFC 4165 Section 4.
#[derive(Debug)]
pub struct M2paStateMachine {
    state: M2paState,
}

impl View for M2paStateMachine {
    type V = M2paState;

    closed spec fn view(&self) -> M2paState {
        self.state
    }
}

impl M2paStateMachine {
    /// A machine in Out of Service.
    pub fn new() -> (r: Self)
        ensures
            r@ == M2paState::OutOfService,
    {
        Self { state: M2paState::OutOfService }
    }

    /// The current state.
    pub fn state(&self) -> (r: M2paState)
        ensures
            r == self@,
    {
        self.state
    }

    /// Process a received LinkState and transition the state machine.
    ///
    /// Returns the new state after the transition.
    pub fn on_link_status(&mut self, link_state: LinkState) -> (r: M2paState)
        ensures
            final(self)@ == next_state(old(self)@, link_state),
            r == final(self)@,
    {
        self.state = match (self.state, link_state) {
            // Out of Service: start alignment when we receive Alignment
            (M2paState::OutOfService, LinkState::Alignment) => M2paState::NotAligned,
            // Not Aligned: peer sent Alignment, we're now aligned
            (M2paState::NotAligned, LinkState::Alignment) => M2paState::Aligned,
            // Aligned: peer starts proving
            (M2paState::Aligned, LinkState::ProvingNormal)
            | (M2paState::Aligned, LinkState::ProvingEmergency) => M2paState::Proving,
            // Proving: peer says Ready, we're aligned and ready
            (M2paState::Proving, LinkState::Ready) => M2paState::AlignedReady,
            // Proving: peer continues proving, stay in Proving
            (M2paState::Proving, LinkState::ProvingNormal)
            | (M2paState::Proving, LinkState::ProvingEmergency) => M2paState::Proving,
            // Aligned Ready: transition to In Service
            (M2paState::AlignedReady, LinkState::Ready) => M2paState::InService,
            // Processor outage from In Service
            (M2paState::InService, LinkState::ProcessorOutage) => M2paState::AlignedReady,
            // Processor recovered back to In Service
            (M2paState::AlignedReady, LinkState::ProcessorRecovered) => M2paState::InService,
            // Busy/Busy Ended in In Service: stay in service (flow control)
            (M2paState::InService, LinkState::Busy)
            | (M2paState::InService, LinkState::BusyEnded) => M2paState::InService,
            // Any unexpected transition: go Out of Service
            (_, _) => M2paState::OutOfService,
        };
        self.state
    }

    /// Initiate alignment from Out of Service state.
    /// Returns true if the transition was valid.
    pub fn start(&mut self) -> (r: bool)
        ensures
            r == (old(self)@ == M2paState::OutOfService),
            final(self)@ == (if r {
                M2paState::NotAligned
            } else {
                old(self)@
            }),
    {
        if self.state == M2paState::OutOfService {
            self.state = M2paState::NotAligned;
            true
        } else {
            false
        }
    }

    /// Force the link out of service.
    pub fn stop(&mut self)
        ensures
            final(self)@ == M2paState::OutOfService,
    {
        self.state = M2paState::OutOfService;
    }

    /// The display form, e.g. "M2PA State Machine [state=Out of Service]".
    pub fn to_string(&self) -> (r: String)
        ensures
            r@ == "M2PA State Machine [state="@ + m2pa_state_name(self@) + "]"@,
    {
        let mut r = String::from_str("M2PA State Machine [state=");
        let name = self.state.to_string();
        r.append(name.as_str());
        r.append("]");
        r
    }
}

impl Default for M2paStateMachine {
    fn default() -> (r: Self)
        ensures
            r@ == M2paState::OutOfService,
    {
        Self::new()
    }
}

/// The link advances at most one stage of the lifecycle per received Link
/// Status; whatever is not a listed transition drops it to Out of Service.
pub proof fn lemma_one_stage_per_input(s: M2paState, ls: LinkState)
    ensures
        stage(next_state(s, ls)) <= stage(s) + 1,
{
}

/// After any sequence of received Link Status messages the link stands at
/// most as many stages further along as there were messages.
pub proof fn lemma_stages_bounded_by_inputs(s: M2paState, inputs: Seq<LinkState>)
    ensures
        stage(run(s, inputs)) <= stage(s) + inputs.len(),
    decreases inputs.len(),
{
    if inputs.len() > 0 {
        lemma_stages_bounded_by_inputs(next_state(s, inputs[0]), inputs.drop_first());
    }
}

/// The link enters In Service only from Aligned Ready (peer Ready or
/// Processor Recovered) or stays in it (Busy, Busy Ended).
pub proof fn lemma_in_service_entry(s: M2paState, ls: LinkState)
    ensures
        next_state(s, ls) == M2paState::InService ==> (s == M2paState::AlignedReady && (ls
            == LinkState::Ready || ls == LinkState::ProcessorRecovered)) || (s
            == M2paState::InService && (ls == LinkState::Busy || ls == LinkState::BusyEnded)),
{
}

/// The normal alignment: from Not Aligned, peer Alignment, Proving (Normal or
/// Emergency), Ready, Ready puts the link In Service.
pub proof fn lemma_alignment_sequence(proving: LinkState)
    requires
        proving == LinkState::ProvingNormal || proving == LinkState::ProvingEmergency,
    ensures
        run(
            M2paState::NotAligned,
            seq![LinkState::Alignment, proving, LinkState::Ready, LinkState::Ready],
        ) == M2paState::InService,
{
    reveal_with_fuel(run, 5);
    let inputs = seq![LinkState::Alignment, proving, LinkState::Ready, LinkState::Ready];
    assert(inputs.drop_first() =~= seq![proving, LinkState::Ready, LinkState::Ready]);
    assert(inputs.drop_first().drop_first() =~= seq![LinkState::Ready, LinkState::Ready]);
    assert(inputs.drop_first().drop_first().drop_first() =~= seq![LinkState::Ready]);
    assert(inputs.drop_first().drop_first().drop_first().drop_first() =~= Seq::<
        LinkState,
    >::empty());
}

/// Processor outage and recovery: an In Service link that receives Processor
/// Outage drops to Aligned Ready, and Processor Recovered brings it back.
pub proof fn lemma_outage_recovery()
    ensures
        next_state(M2paState::InService, LinkState::ProcessorOutage) == M2paState::AlignedReady,
        next_state(
            next_state(M2paState::InService, LinkState::ProcessorOutage),
            LinkState::ProcessorRecovered,
        ) == M2paState::InService,
{
}

/// Flow control never takes the link out of service: any run of Busy and
/// Busy Ended keeps an In Service link In Service.
pub proof fn lemma_busy_keeps_in_service(inputs: Seq<LinkState>)
    requires
        forall|i: int|
            0 <= i < inputs.len() ==> #[trigger] inputs[i] == LinkState::Busy || inputs[i]
                == LinkState::BusyEnded,
    ensures
        run(M2paState::InService, inputs) == M2paState::InService,
    decreases inputs.len(),
{
    if inputs.len() > 0 {
        let rest = inputs.drop_first();
        assert forall|i: int| 0 <= i < rest.len() implies #[trigger] rest[i] == LinkState::Busy
            || rest[i] == LinkState::BusyEnded by {
            assert(rest[i] == inputs[i + 1]);
        }
        lemma_busy_keeps_in_service(rest);
    }
}

/// Of all received Link Status messages, only Alignment moves a link out of
/// Out of Service.
pub proof fn lemma_out_of_service_exits(ls: LinkState)
    ensures
        next_state(M2paState::OutOfService, ls) != M2paState::OutOfService ==> ls
            == LinkState::Alignment,
{
}

/// Normal and emergency proving are handled alike: in every state, a peer
/// Proving Normal and a peer Proving Emergency lead to the same next state,
/// and from Aligned or Proving either one puts (or keeps) the link in Proving.
pub proof fn lemma_proving_kinds_alike(s: M2paState, ls: LinkState)
    requires
        ls == LinkState::ProvingNormal || ls == LinkState::ProvingEmergency,
    ensures
        next_state(s, LinkState::ProvingNormal) == next_state(s, LinkState::ProvingEmergency),
        (s == M2paState::Aligned || s == M2paState::Proving) ==> next_state(s, ls)
            == M2paState::Proving,
{
}

/// A received Link Status leaves the link where it is only while it keeps
/// proving (Proving on Proving Normal / Emergency), under flow control (In
/// Service on Busy / Busy Ended), or while it stays out of service; every
/// other input moves it.
pub proof fn lemma_state_kept_only_when_expected(s: M2paState, ls: LinkState)
    ensures
        next_state(s, ls) == s <==> (s == M2paState::Proving && (ls == LinkState::ProvingNormal
            || ls == LinkState::ProvingEmergency)) || (s == M2paState::InService && (ls
            == LinkState::Busy || ls == LinkState::BusyEnded)) || (s == M2paState::OutOfService
            && ls != LinkState::Alignment),
{
}

/// Fail safe: a received Link Status keeps the link out of Out of Service
/// exactly for the lifecycle steps of RFC 4165 section 4; any other pair of
/// state and input drops the link to Out of Service.
pub proof fn lemma_fail_safe(s: M2paState, ls: LinkState)
    ensures
        next_state(s, ls) != M2paState::OutOfService <==> ((s == M2paState::OutOfService && ls
            == LinkState::Alignment) || (s == M2paState::NotAligned && ls == LinkState::Alignment)
            || ((s == M2paState::Aligned || s == M2paState::Proving) && (ls
            == LinkState::ProvingNormal || ls == LinkState::ProvingEmergency)) || (s
            == M2paState::Proving && ls == LinkState::Ready) || (s == M2paState::AlignedReady && (ls
            == LinkState::Ready || ls == LinkState::ProcessorRecovered)) || (s
            == M2paState::InService && (ls == LinkState::ProcessorOutage || ls == LinkState::Busy
            || ls == LinkState::BusyEnded))),
{
}

/// Every move that neither drops the link nor keeps it in place advances it
/// exactly one stage along the lifecycle, except a processor outage, which
/// takes an In Service link back to Aligned Ready.
pub proof fn lemma_moves_are_single_steps(s: M2paState, ls: LinkState)
    ensures
        ({
            let n = next_state(s, ls);
            n != M2paState::OutOfService && n != s ==> stage(n) == stage(s) + 1 || (s
                == M2paState::InService && n == M2paState::AlignedReady && ls
                == LinkState::ProcessorOutage)
        }),
{
}

} // verus!
