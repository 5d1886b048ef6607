//! The session establisher: a state machine that opens one session against
//! the bridge, resolves which device to attach to (explicit selection, or the
//! first enumerated device), and binds the session to it.
//!
//! The machine only decides; a driver performs each returned effect in order
//! and feeds the outcome back through [`Establisher::step`].

use vstd::prelude::*;
use vstd::string::*;
use crate::errors::EstablishError;
use crate::text::{notice_line, notice_model};

verus! {

/// The establisher's state: one session, entered monotonically.
#[derive(Debug, PartialEq, Eq)]
pub enum Establisher {
    /// Waiting for the session against the bridge endpoint to open.
    Opening { requested: Option<String> },
    /// Waiting for the device list, default selection being needed.
    Enumerating,
    /// Waiting for the chosen device to accept the attach request.
    Attaching { device: String },
    /// The session is bound to the device; commands may be issued.
    Attached { device: String },
    /// Establishment failed; the machine is halted.
    Failed { error: EstablishError },
}

/// Mathematical model of an [`Establisher`].
#[verifier::ext_equal]
pub ghost enum EstablisherModel {
    Opening { requested: Option<Seq<char>> },
    Enumerating,
    Attaching { device: Seq<char> },
    Attached { device: Seq<char> },
    Failed { error: EstablishError },
}

impl View for Establisher {
    type V = EstablisherModel;

    open spec fn view(&self) -> EstablisherModel {
        match self {
            Establisher::Opening { requested } => EstablisherModel::Opening {
                requested: requested.deep_view(),
            },
            Establisher::Enumerating => EstablisherModel::Enumerating,
            Establisher::Attaching { device } => EstablisherModel::Attaching { device: device@ },
            Establisher::Attached { device } => EstablisherModel::Attached { device: device@ },
            Establisher::Failed { error } => EstablisherModel::Failed { error: *error },
        }
    }
}

/// The outcome of the effect the driver last performed.
pub enum EstablishEvent {
    OpenedOk,
    OpenedErr,
    DevicesOk { devices: Vec<String> },
    DevicesErr,
    AttachedOk,
    AttachedErr,
}

/// Mathematical model of an [`EstablishEvent`].
#[verifier::ext_equal]
pub ghost enum EstablishEventModel {
    OpenedOk,
    OpenedErr,
    DevicesOk { devices: Seq<Seq<char>> },
    DevicesErr,
    AttachedOk,
    AttachedErr,
}

impl View for EstablishEvent {
    type V = EstablishEventModel;

    open spec fn view(&self) -> EstablishEventModel {
        match self {
            EstablishEvent::OpenedOk => EstablishEventModel::OpenedOk,
            EstablishEvent::OpenedErr => EstablishEventModel::OpenedErr,
            EstablishEvent::DevicesOk { devices } => EstablishEventModel::DevicesOk {
                devices: devices.deep_view(),
            },
            EstablishEvent::DevicesErr => EstablishEventModel::DevicesErr,
            EstablishEvent::AttachedOk => EstablishEventModel::AttachedOk,
            EstablishEvent::AttachedErr => EstablishEventModel::AttachedErr,
        }
    }
}

/// What the driver must do next: open the session, enumerate devices, print a
/// line, or issue the attach call.
#[derive(Debug, PartialEq, Eq)]
pub enum EstablishEffect {
    OpenSession,
    EnumerateDevices,
    Print { line: String },
    Attach { device: String },
}

/// Mathematical model of an [`EstablishEffect`].
#[verifier::ext_equal]
pub ghost enum EstablishEffectModel {
    OpenSession,
    EnumerateDevices,
    Print { line: Seq<char> },
    Attach { device: Seq<char> },
}

impl View for EstablishEffect {
    type V = EstablishEffectModel;

    open spec fn view(&self) -> EstablishEffectModel {
        match self {
            EstablishEffect::OpenSession => EstablishEffectModel::OpenSession,
            EstablishEffect::EnumerateDevices => EstablishEffectModel::EnumerateDevices,
            EstablishEffect::Print { line } => EstablishEffectModel::Print { line: line@ },
            EstablishEffect::Attach { device } => EstablishEffectModel::Attach { device: device@ },
        }
    }
}

/// The model trace of a produced effect list.
pub open spec fn est_trace_of(v: Vec<EstablishEffect>) -> Seq<EstablishEffectModel> {
    v@.map_values(|e: EstablishEffect| e@)
}

/// The initial state and effects of establishment.
pub open spec fn est_begin(requested: Option<Seq<char>>) -> (EstablisherModel, Seq<
    EstablishEffectModel,
>) {
    (EstablisherModel::Opening { requested }, seq![EstablishEffectModel::OpenSession])
}

/// Whether the machine has halted, successfully or not.
pub open spec fn est_done(s: EstablisherModel) -> bool {
    s is Attached || s is Failed
}

/// Which events answer the effect issued from each state.
pub open spec fn est_accepts(s: EstablisherModel, e: EstablishEventModel) -> bool {
    match s {
        EstablisherModel::Opening { .. } => e is OpenedOk || e is OpenedErr,
        EstablisherModel::Enumerating => e is DevicesOk || e is DevicesErr,
        EstablisherModel::Attaching { .. } => e is AttachedOk || e is AttachedErr,
        EstablisherModel::Attached { .. } => false,
        EstablisherModel::Failed { .. } => false,
    }
}

/// The transition relation of establishment: the next state and the effects
/// the driver must perform, in order.
pub open spec fn est_next(s: EstablisherModel, e: EstablishEventModel) -> (EstablisherModel, Seq<
    EstablishEffectModel,
>) {
    match (s, e) {
        (EstablisherModel::Opening { requested }, EstablishEventModel::OpenedOk) => match requested {
            Some(d) => (
                EstablisherModel::Attaching { device: d },
                seq![
                    EstablishEffectModel::Print { line: notice_model(d) },
                    EstablishEffectModel::Attach { device: d },
                ],
            ),
            None => (EstablisherModel::Enumerating, seq![EstablishEffectModel::EnumerateDevices]),
        },
        (EstablisherModel::Opening { .. }, EstablishEventModel::OpenedErr) => (
            EstablisherModel::Failed { error: EstablishError::ConnectionFailed },
            Seq::empty(),
        ),
        (EstablisherModel::Enumerating, EstablishEventModel::DevicesOk { devices }) => if devices.len()
            > 0 {
            (
                EstablisherModel::Attaching { device: devices[0] },
                seq![
                    EstablishEffectModel::Print { line: notice_model(devices[0]) },
                    EstablishEffectModel::Attach { device: devices[0] },
                ],
            )
        } else {
            (EstablisherModel::Failed { error: EstablishError::NoDevicesFound }, Seq::empty())
        },
        (EstablisherModel::Enumerating, EstablishEventModel::DevicesErr) => (
            EstablisherModel::Failed { error: EstablishError::EnumerationFailed },
            Seq::empty(),
        ),
        (EstablisherModel::Attaching { device }, EstablishEventModel::AttachedOk) => (
            EstablisherModel::Attached { device },
            Seq::empty(),
        ),
        (EstablisherModel::Attaching { .. }, EstablishEventModel::AttachedErr) => (
            EstablisherModel::Failed { error: EstablishError::AttachFailed },
            Seq::empty(),
        ),
        _ => (s, Seq::empty()),
    }
}

/// The full effect trace of driving the machine from `s` with the events
/// `evs`, stopping when the machine halts or an event does not answer the
/// pending effect.
pub open spec fn est_run(s: EstablisherModel, evs: Seq<EstablishEventModel>) -> Seq<
    EstablishEffectModel,
>
    decreases evs.len(),
{
    if evs.len() == 0 || est_done(s) || !est_accepts(s, evs[0]) {
        Seq::empty()
    } else {
        est_next(s, evs[0]).1 + est_run(est_next(s, evs[0]).0, evs.drop_first())
    }
}

impl Establisher {
    /// Start establishment.  The driver performs the returned effects in
    /// order, then reports the outcome through [`Establisher::step`].
    pub fn begin(requested: Option<String>) -> (r: (Establisher, Vec<EstablishEffect>))
        ensures
            r.0@ == est_begin(requested.deep_view()).0,
            est_trace_of(r.1) == est_begin(requested.deep_view()).1,
    {
        let effs = vec![EstablishEffect::OpenSession];
        proof {
            assert(est_trace_of(effs) =~= est_begin(requested.deep_view()).1);
        }
        (Establisher::Opening { requested }, effs)
    }

    /// Advance the machine by one observed outcome, yielding the next state
    /// and the effects to perform before the next event is due.
    pub fn step(self, event: EstablishEvent) -> (r: (Establisher, Vec<EstablishEffect>))
        requires
            est_accepts(self@, event@),
        ensures
            r.0@ == est_next(self@, event@).0,
            est_trace_of(r.1) == est_next(self@, event@).1,
    {
        let ghost s = self@;
        let ghost e = event@;
        match (self, event) {
            (Establisher::Opening { requested }, EstablishEvent::OpenedOk) => match requested {
                Some(d) => {
                    let line = notice_line(d.as_str());
                    let device = d.clone();
                    let effs = vec![
                        EstablishEffect::Print { line },
                        EstablishEffect::Attach { device },
                    ];
                    proof {
                        assert(est_trace_of(effs) =~= est_next(s, e).1);
                    }
                    (Establisher::Attaching { device: d }, effs)
                },
                None => {
                    let effs = vec![EstablishEffect::EnumerateDevices];
                    proof {
                        assert(est_trace_of(effs) =~= est_next(s, e).1);
                    }
                    (Establisher::Enumerating, effs)
                },
            },
            (Establisher::Opening { .. }, EstablishEvent::OpenedErr) => {
                let effs = Vec::new();
                proof {
                    assert(est_trace_of(effs) =~= est_next(s, e).1);
                }
                (Establisher::Failed { error: EstablishError::ConnectionFailed }, effs)
            },
            (Establisher::Enumerating, EstablishEvent::DevicesOk { devices }) => {
                if devices.len() > 0 {
                    let first = devices[0].clone();
                    let line = notice_line(first.as_str());
                    let device = first.clone();
                    let effs = vec![
                        EstablishEffect::Print { line },
                        EstablishEffect::Attach { device },
                    ];
                    proof {
                        assert(devices.deep_view()[0] == devices@[0]@);
                        assert(est_trace_of(effs) =~= est_next(s, e).1);
                    }
                    (Establisher::Attaching { device: first }, effs)
                } else {
                    let effs = Vec::new();
                    proof {
                        assert(est_trace_of(effs) =~= est_next(s, e).1);
                    }
                    (Establisher::Failed { error: EstablishError::NoDevicesFound }, effs)
                }
            },
            (Establisher::Enumerating, EstablishEvent::DevicesErr) => {
                let effs = Vec::new();
                proof {
                    assert(est_trace_of(effs) =~= est_next(s, e).1);
                }
                (Establisher::Failed { error: EstablishError::EnumerationFailed }, effs)
            },
            (Establisher::Attaching { device }, EstablishEvent::AttachedOk) => {
                let effs = Vec::new();
                proof {
                    assert(est_trace_of(effs) =~= est_next(s, e).1);
                }
                (Establisher::Attached { device }, effs)
            },
            (Establisher::Attaching { .. }, EstablishEvent::AttachedErr) => {
                let effs = Vec::new();
                proof {
                    assert(est_trace_of(effs) =~= est_next(s, e).1);
                }
                (Establisher::Failed { error: EstablishError::AttachFailed }, effs)
            },
            _ => {
                proof {
                    assert(false);
                }
                (Establisher::Enumerating, Vec::new())
            },
        }
    }
}

/// For every non-empty device list, default selection picks the first element
/// in the order returned by enumeration: the machine moves to attaching that
/// device, and the notice naming it is printed before the attach call.
pub proof fn lemma_default_selects_first(devices: Seq<Seq<char>>)
    requires
        devices.len() > 0,
    ensures
        est_next(EstablisherModel::Enumerating, EstablishEventModel::DevicesOk { devices }).0
            == (EstablisherModel::Attaching { device: devices[0] }),
        est_next(EstablisherModel::Enumerating, EstablishEventModel::DevicesOk { devices }).1 =~= seq![
            EstablishEffectModel::Print { line: notice_model(devices[0]) },
            EstablishEffectModel::Attach { device: devices[0] },
        ],
{
}

/// With an empty device list and no explicit device, establishment fails with
/// `NoDevicesFound`, no effect is produced, and — the machine being halted —
/// no attach call is ever issued afterwards, whatever events follow.
pub proof fn lemma_empty_list_never_attaches(
    devices: Seq<Seq<char>>,
    later: Seq<EstablishEventModel>,
)
    requires
        devices.len() == 0,
    ensures
        est_next(EstablisherModel::Enumerating, EstablishEventModel::DevicesOk { devices }).0
            == (EstablisherModel::Failed { error: EstablishError::NoDevicesFound }),
        est_next(EstablisherModel::Enumerating, EstablishEventModel::DevicesOk { devices }).1
            =~= Seq::<EstablishEffectModel>::empty(),
        est_run(
            est_next(EstablisherModel::Enumerating, EstablishEventModel::DevicesOk { devices }).0,
            later,
        ) =~= Seq::<EstablishEffectModel>::empty(),
{
}

} // verus!
