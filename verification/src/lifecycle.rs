//! The device lifecycle: the steps that open a display, and the steps that
//! give it back.
//!
//! Opening is a fixed walk: find the device by its ids, open it, ask
//! whether the kernel driver holds the interface and detach it if so, select
//! the configuration, claim the interface, ask the display for its
//! dimensions. Whatever fails, what was taken from the system by then is
//! given back before the failure is reported.

use vstd::prelude::*;
use crate::command::{dimensions_of, query_dimensions_bytes, CommandBlock, DIMENSIONS_LEN};
use crate::display::AX206LCD;
use crate::error::{AX206Error, UsbFault};
use crate::transport::{
    advanced, pending, started, Direction, Exchange, ExchangeView, Phase, Reply, Transfer,
    TransferView,
};

verus! {

/// The interface of the display that carries the bulk endpoints.
pub const INTERFACE: u8 = 0;

/// The configuration that is selected on opening.
pub const CONFIGURATION: u8 = 1;

/// One thing that the caller is asked to do on the bus.
#[derive(Clone, Copy, Debug, PartialEq, Eq)]
pub enum Step<'a> {
    /// Look for the first device with these ids.
    FindDevice { vendor_id: u16, product_id: u16 },
    /// Open the device that was found.
    OpenDevice,
    /// Ask whether a kernel driver is bound to the interface.
    KernelDriverActive { interface: u8 },
    /// Detach the kernel driver from the interface.
    DetachKernelDriver { interface: u8 },
    /// Select a configuration.
    SetConfiguration { configuration: u8 },
    /// Claim the interface.
    ClaimInterface { interface: u8 },
    /// Perform a bulk transfer.
    Bulk(Transfer<'a>),
    /// Release the interface.
    ReleaseInterface { interface: u8 },
    /// Attach the kernel driver to the interface again.
    AttachKernelDriver { interface: u8 },
}

/// A step as a plain value.
pub ghost enum StepView {
    FindDevice { vendor_id: u16, product_id: u16 },
    OpenDevice,
    KernelDriverActive { interface: u8 },
    DetachKernelDriver { interface: u8 },
    SetConfiguration { configuration: u8 },
    ClaimInterface { interface: u8 },
    Bulk(TransferView),
    ReleaseInterface { interface: u8 },
    AttachKernelDriver { interface: u8 },
}

impl<'a> View for Step<'a> {
    type V = StepView;

    open spec fn view(&self) -> StepView {
        match *self {
            Step::FindDevice { vendor_id, product_id } => StepView::FindDevice {
                vendor_id,
                product_id,
            },
            Step::OpenDevice => StepView::OpenDevice,
            Step::KernelDriverActive { interface } => StepView::KernelDriverActive { interface },
            Step::DetachKernelDriver { interface } => StepView::DetachKernelDriver { interface },
            Step::SetConfiguration { configuration } => StepView::SetConfiguration {
                configuration,
            },
            Step::ClaimInterface { interface } => StepView::ClaimInterface { interface },
            Step::Bulk(transfer) => StepView::Bulk(transfer@),
            Step::ReleaseInterface { interface } => StepView::ReleaseInterface { interface },
            Step::AttachKernelDriver { interface } => StepView::AttachKernelDriver { interface },
        }
    }
}

/// How a step went.
#[derive(Clone, Debug, PartialEq, Eq)]
pub enum Answer {
    /// The step was carried out.
    Done,
    /// No device with the wanted ids is on the bus.
    NotFound,
    /// Whether a kernel driver is bound to the interface.
    Active(bool),
    /// How the bulk transfer went.
    Bulk(Reply),
    /// The USB layer reported a fault.
    Failed(UsbFault),
}

/// What is still owed to the system when a display is given up.
#[derive(Clone, Copy, Debug, PartialEq, Eq, Structural)]
pub struct Teardown {
    /// The claimed interface has to be released.
    pub release: bool,
    /// The kernel driver has to be attached again.
    pub reattach: bool,
}

impl Teardown {
    /// The step that is due: releasing comes before attaching.
    pub open spec fn due(self) -> Option<StepView> {
        if self.release {
            Some(StepView::ReleaseInterface { interface: INTERFACE })
        } else if self.reattach {
            Some(StepView::AttachKernelDriver { interface: INTERFACE })
        } else {
            None
        }
    }

    /// What is owed once the step that was due has been tried.
    pub open spec fn settled(self) -> Teardown {
        if self.release {
            Teardown { release: false, ..self }
        } else {
            Teardown { release: false, reattach: false }
        }
    }

    /// The step to perform next; `None` when nothing is owed any more.
    pub fn step(&self) -> (s: Option<Step<'static>>)
        ensures
            match s {
                Some(step) => self.due() == Some(step@),
                None => self.due() is None,
            },
    {
        if self.release {
            Some(Step::ReleaseInterface { interface: INTERFACE })
        } else if self.reattach {
            Some(Step::AttachKernelDriver { interface: INTERFACE })
        } else {
            None
        }
    }

    /// Notes that the step that was due has been tried. Whether it went
    /// well does not matter: a failure while giving back is for the log, and
    /// each step is tried once.
    pub fn advance(&mut self)
        ensures
            *final(self) == old(self).settled(),
    {
        if self.release {
            self.release = false;
        } else {
            self.reattach = false;
        }
    }
}

/// Where the opening of a display stands.
#[derive(Clone, Copy, Debug, PartialEq, Eq, Structural)]
pub enum Stage {
    /// The device has to be found.
    Find,
    /// The device has to be opened.
    Open,
    /// The kernel driver has to be asked for.
    Probe,
    /// The kernel driver has to be detached.
    Detach,
    /// The configuration has to be selected.
    Configure,
    /// The interface has to be claimed.
    Claim,
    /// The display has to be asked for its dimensions.
    Query,
    /// Opening failed with this error; what was taken is being given back.
    Cleanup(AX206Error),
    /// The display is open.
    Ready,
    /// Opening failed with this error and nothing is owed any more.
    Failed(AX206Error),
}

/// An opening as a plain value.
pub ghost struct OpeningView {
    pub vendor_id: u16,
    pub product_id: u16,
    pub debug: bool,
    pub stage: Stage,
    /// Whether the kernel driver was detached.
    pub kernel_detached: bool,
    /// The dimension query.
    pub query: ExchangeView,
    /// What is left to give back, while cleaning up.
    pub teardown: Teardown,
}

/// An opening before its first step.
pub open spec fn opening_started(vendor_id: u16, product_id: u16, debug: bool) -> OpeningView {
    OpeningView {
        vendor_id,
        product_id,
        debug,
        stage: Stage::Find,
        kernel_detached: false,
        query: started(query_dimensions_bytes(), Direction::In, Some(seq![0u8, 0u8, 0u8, 0u8, 0u8])),
        teardown: Teardown { release: false, reattach: false },
    }
}

/// The step an opening waits for, if any.
pub open spec fn opening_pending(v: OpeningView) -> Option<StepView> {
    match v.stage {
        Stage::Find => Some(
            StepView::FindDevice { vendor_id: v.vendor_id, product_id: v.product_id },
        ),
        Stage::Open => Some(StepView::OpenDevice),
        Stage::Probe => Some(StepView::KernelDriverActive { interface: INTERFACE }),
        Stage::Detach => Some(StepView::DetachKernelDriver { interface: INTERFACE }),
        Stage::Configure => Some(StepView::SetConfiguration { configuration: CONFIGURATION }),
        Stage::Claim => Some(StepView::ClaimInterface { interface: INTERFACE }),
        Stage::Query => match pending(v.query) {
            Some(transfer) => Some(StepView::Bulk(transfer)),
            None => None,
        },
        Stage::Cleanup(_) => v.teardown.due(),
        Stage::Ready => None,
        Stage::Failed(_) => None,
    }
}

/// An opening that met `error` in its current stage. The interface is owed
/// back if it was claimed, which is so during the query; the kernel driver
/// is owed back if it was detached. With nothing owed the opening has
/// failed at once.
pub open spec fn opening_failed(v: OpeningView, error: AX206Error) -> OpeningView {
    let owed = Teardown { release: v.stage == Stage::Query, reattach: v.kernel_detached };
    if owed.release || owed.reattach {
        OpeningView { stage: Stage::Cleanup(error), teardown: owed, ..v }
    } else {
        OpeningView { stage: Stage::Failed(error), ..v }
    }
}

/// The error that an answer amounts to when the step had to be carried
/// out: the fault that was reported, or `UsbFault::Other` for an answer
/// that does not fit the step.
pub open spec fn answer_error(answer: Answer) -> AX206Error {
    match answer {
        Answer::Failed(fault) => AX206Error::UsbError(fault),
        _ => AX206Error::UsbError(UsbFault::Other),
    }
}

/// The reply that an answer is to the dimension query.
pub open spec fn answer_reply(answer: Answer) -> Reply {
    match answer {
        Answer::Bulk(reply) => reply,
        Answer::Failed(fault) => Reply::Failed(fault),
        _ => Reply::Failed(UsbFault::Other),
    }
}

/// The opening after a step that only has to be carried out: on
/// `Answer::Done` it goes on to `next`, on anything else it has met an
/// error.
pub open spec fn carried_out(v: OpeningView, answer: Answer, next: Stage) -> OpeningView {
    match answer {
        Answer::Done => OpeningView { stage: next, ..v },
        _ => opening_failed(v, answer_error(answer)),
    }
}

/// The opening after an answer to the dimension query: the query moves on,
/// and once it is finished the display is open if its status byte is zero;
/// a non-zero status byte and a fault are errors.
pub open spec fn queried(v: OpeningView, answer: Answer) -> OpeningView {
    let asked = OpeningView { query: advanced(v.query, answer_reply(answer)), ..v };
    match asked.query.phase {
        Phase::Finished(Ok(status)) => if status == 0 {
            OpeningView { stage: Stage::Ready, ..asked }
        } else {
            opening_failed(asked, AX206Error::ScsiCommandFailed(status))
        },
        Phase::Finished(Err(fault)) => opening_failed(asked, AX206Error::UsbError(fault)),
        _ => asked,
    }
}

/// The opening after one step of giving back: the next thing owed, or the
/// end with the error that was met.
pub open spec fn cleaned(v: OpeningView, error: AX206Error) -> OpeningView {
    let owed = v.teardown.settled();
    if owed.due() is Some {
        OpeningView { teardown: owed, ..v }
    } else {
        OpeningView { stage: Stage::Failed(error), teardown: owed, ..v }
    }
}

/// The opening after the answer to its pending step.
///
/// A device that is not there ends the opening with `DeviceNotFound`. The
/// kernel driver is detached exactly when it is reported active. An opening
/// that has come to an end stays as it is.
pub open spec fn opening_advanced(v: OpeningView, answer: Answer) -> OpeningView {
    match v.stage {
        Stage::Find => match answer {
            Answer::NotFound => OpeningView {
                stage: Stage::Failed(AX206Error::DeviceNotFound),
                ..v
            },
            _ => carried_out(v, answer, Stage::Open),
        },
        Stage::Open => carried_out(v, answer, Stage::Probe),
        Stage::Probe => match answer {
            Answer::Active(active) => OpeningView {
                stage: if active {
                    Stage::Detach
                } else {
                    Stage::Configure
                },
                ..v
            },
            _ => opening_failed(v, answer_error(answer)),
        },
        Stage::Detach => carried_out(
            OpeningView { kernel_detached: answer is Done, ..v },
            answer,
            Stage::Configure,
        ),
        Stage::Configure => carried_out(v, answer, Stage::Claim),
        Stage::Claim => carried_out(v, answer, Stage::Query),
        Stage::Query => queried(v, answer),
        Stage::Cleanup(error) => cleaned(v, error),
        Stage::Ready => v,
        Stage::Failed(_) => v,
    }
}

/// What an opening has come to, once it has: the handle of the display with
/// the dimensions it reported, or the error.
pub open spec fn opening_outcome(v: OpeningView) -> Option<Result<AX206LCD, AX206Error>> {
    match v.stage {
        Stage::Ready => {
            let response = match v.query.buffer {
                Some(bytes) => bytes,
                None => Seq::<u8>::empty(),
            };
            Some(
                Ok(
                    AX206LCD {
                        width: dimensions_of(response).0,
                        height: dimensions_of(response).1,
                        debug: v.debug,
                        kernel_detached: v.kernel_detached,
                    },
                ),
            )
        },
        Stage::Failed(error) => Some(Err(error)),
        _ => None,
    }
}

/// The opening of a display, step by step.
pub struct Opening {
    vendor_id: u16,
    product_id: u16,
    debug: bool,
    stage: Stage,
    kernel_detached: bool,
    query: Exchange,
    teardown: Teardown,
}

impl View for Opening {
    type V = OpeningView;

    closed spec fn view(&self) -> OpeningView {
        OpeningView {
            vendor_id: self.vendor_id,
            product_id: self.product_id,
            debug: self.debug,
            stage: self.stage,
            kernel_detached: self.kernel_detached,
            query: self.query@,
            teardown: self.teardown,
        }
    }
}

impl Opening {
    /// Prepares the opening of the first display with these ids.
    pub fn new(vendor_id: u16, product_id: u16, debug: bool) -> (o: Opening)
        ensures
            o@ == opening_started(vendor_id, product_id, debug),
    {
        let mut buffer: Vec<u8> = Vec::with_capacity(DIMENSIONS_LEN);
        buffer.push(0);
        buffer.push(0);
        buffer.push(0);
        buffer.push(0);
        buffer.push(0);
        assert(buffer@ =~= seq![0u8, 0u8, 0u8, 0u8, 0u8]);
        let command = CommandBlock::query_dimensions();
        Opening {
            vendor_id,
            product_id,
            debug,
            stage: Stage::Find,
            kernel_detached: false,
            query: Exchange::new(&command, Direction::In, Some(buffer)),
            teardown: Teardown { release: false, reattach: false },
        }
    }

    /// The step to perform next; `None` once the display is open or the
    /// opening has failed.
    pub fn step(&self) -> (s: Option<Step<'_>>)
        ensures
            match s {
                Some(step) => opening_pending(self@) == Some(step@),
                None => opening_pending(self@) is None,
            },
    {
        match self.stage {
            Stage::Find => Some(
                Step::FindDevice { vendor_id: self.vendor_id, product_id: self.product_id },
            ),
            Stage::Open => Some(Step::OpenDevice),
            Stage::Probe => Some(Step::KernelDriverActive { interface: INTERFACE }),
            Stage::Detach => Some(Step::DetachKernelDriver { interface: INTERFACE }),
            Stage::Configure => Some(Step::SetConfiguration { configuration: CONFIGURATION }),
            Stage::Claim => Some(Step::ClaimInterface { interface: INTERFACE }),
            Stage::Query => match self.query.request() {
                Some(transfer) => Some(Step::Bulk(transfer)),
                None => None,
            },
            Stage::Cleanup(_) => self.teardown.step(),
            Stage::Ready => None,
            Stage::Failed(_) => None,
        }
    }

    /// Notes an error met in the current stage.
    fn fail(&mut self, error: AX206Error)
        ensures
            final(self)@ == opening_failed(old(self)@, error),
    {
        let release = match self.stage {
            Stage::Query => true,
            _ => false,
        };
        if release || self.kernel_detached {
            self.teardown = Teardown { release, reattach: self.kernel_detached };
            self.stage = Stage::Cleanup(error);
        } else {
            self.stage = Stage::Failed(error);
        }
    }

    /// Takes the answer to a step that only has to be carried out.
    fn proceed(&mut self, answer: Answer, next: Stage)
        ensures
            final(self)@ == carried_out(old(self)@, answer, next),
    {
        match answer {
            Answer::Done => {
                self.stage = next;
            },
            Answer::Failed(fault) => {
                self.fail(AX206Error::UsbError(fault));
            },
            _ => {
                self.fail(AX206Error::UsbError(UsbFault::Other));
            },
        }
    }

    /// Takes an answer to the dimension query.
    fn ask(&mut self, answer: Answer)
        ensures
            final(self)@ == queried(old(self)@, answer),
    {
        let reply = match answer {
            Answer::Bulk(reply) => reply,
            Answer::Failed(fault) => Reply::Failed(fault),
            _ => Reply::Failed(UsbFault::Other),
        };
        self.query.advance(reply);
        match self.query.outcome() {
            Some(Ok(status)) => {
                if status == 0 {
                    self.stage = Stage::Ready;
                } else {
                    self.fail(AX206Error::ScsiCommandFailed(status));
                }
            },
            Some(Err(fault)) => {
                self.fail(AX206Error::UsbError(fault));
            },
            None => {},
        }
    }

    /// Takes the answer to the pending step and moves on.
    pub fn advance(&mut self, answer: Answer)
        ensures
            final(self)@ == opening_advanced(old(self)@, answer),
    {
        match self.stage {
            Stage::Find => match answer {
                Answer::NotFound => {
                    self.stage = Stage::Failed(AX206Error::DeviceNotFound);
                },
                other => {
                    self.proceed(other, Stage::Open);
                },
            },
            Stage::Open => {
                self.proceed(answer, Stage::Probe);
            },
            Stage::Probe => match answer {
                Answer::Active(active) => {
                    if active {
                        self.stage = Stage::Detach;
                    } else {
                        self.stage = Stage::Configure;
                    }
                },
                Answer::Failed(fault) => {
                    self.fail(AX206Error::UsbError(fault));
                },
                _ => {
                    self.fail(AX206Error::UsbError(UsbFault::Other));
                },
            },
            Stage::Detach => {
                match answer {
                    Answer::Done => {
                        self.kernel_detached = true;
                    },
                    _ => {
                        self.kernel_detached = false;
                    },
                }
                self.proceed(answer, Stage::Configure);
            },
            Stage::Configure => {
                self.proceed(answer, Stage::Claim);
            },
            Stage::Claim => {
                self.proceed(answer, Stage::Query);
            },
            Stage::Query => {
                self.ask(answer);
            },
            Stage::Cleanup(error) => {
                self.teardown.advance();
                if !self.teardown.release && !self.teardown.reattach {
                    self.stage = Stage::Failed(error);
                }
            },
            Stage::Ready => {},
            Stage::Failed(_) => {},
        }
    }

    /// Where the opening stands.
    pub fn stage(&self) -> (s: Stage)
        ensures
            s == self@.stage,
    {
        self.stage
    }

    /// Ends the opening: the handle of the display, or the error; `None`
    /// when the opening has not come to an end yet.
    pub fn finish(self) -> (r: Option<Result<AX206LCD, AX206Error>>)
        ensures
            r == opening_outcome(self@),
    {
        match self.stage {
            Stage::Ready => {
                let lcd = match self.query.buffer() {
                    Some(bytes) => AX206LCD::new(
                        self.debug,
                        self.kernel_detached,
                        0,
                        bytes.as_slice(),
                    ),
                    None => {
                        let empty: Vec<u8> = Vec::new();
                        AX206LCD::new(self.debug, self.kernel_detached, 0, empty.as_slice())
                    },
                };
                Some(lcd)
            },
            Stage::Failed(error) => Some(Err(error)),
            _ => None,
        }
    }
}

/// Opening a display whose kernel driver is active takes these steps, in
/// this order: find the device, open it, ask for the kernel driver, detach
/// it, select configuration 1, claim interface 0, then the three transfers
/// of the dimension query. When the display acknowledges the query with
/// status zero, the handle carries the width and height of its response and
/// remembers that the driver was detached.
pub proof fn lemma_opening_walk(
    vendor_id: u16,
    product_id: u16,
    debug: bool,
    sent: usize,
    response: Vec<u8>,
    status_wrapper: Vec<u8>,
)
    requires
        response@.len() == 5,
        status_wrapper@.len() == 13,
        status_wrapper@[12] == 0,
    ensures
        ({
            let v0 = opening_started(vendor_id, product_id, debug);
            let v1 = opening_advanced(v0, Answer::Done);
            let v2 = opening_advanced(v1, Answer::Done);
            let v3 = opening_advanced(v2, Answer::Active(true));
            let v4 = opening_advanced(v3, Answer::Done);
            let v5 = opening_advanced(v4, Answer::Done);
            let v6 = opening_advanced(v5, Answer::Done);
            let v7 = opening_advanced(v6, Answer::Bulk(Reply::Written(sent)));
            let v8 = opening_advanced(v7, Answer::Bulk(Reply::Received(response)));
            let v9 = opening_advanced(v8, Answer::Bulk(Reply::Received(status_wrapper)));
            &&& opening_pending(v0) == Some(StepView::FindDevice { vendor_id, product_id })
            &&& opening_pending(v1) == Some(StepView::OpenDevice)
            &&& opening_pending(v2) == Some(StepView::KernelDriverActive { interface: 0 })
            &&& opening_pending(v3) == Some(StepView::DetachKernelDriver { interface: 0 })
            &&& opening_pending(v4) == Some(StepView::SetConfiguration { configuration: 1 })
            &&& opening_pending(v5) == Some(StepView::ClaimInterface { interface: 0 })
            &&& opening_pending(v6) == Some(
                StepView::Bulk(
                    TransferView::Write {
                        endpoint: 0x01,
                        data: crate::transport::cbw(query_dimensions_bytes(), Direction::In, 5),
                        timeout_ms: 1000,
                    },
                ),
            )
            &&& opening_pending(v7) == Some(
                StepView::Bulk(TransferView::Read { endpoint: 0x81, len: 5, timeout_ms: 4000 }),
            )
            &&& opening_pending(v8) == Some(
                StepView::Bulk(TransferView::Read { endpoint: 0x81, len: 13, timeout_ms: 5000 }),
            )
            &&& opening_pending(v9) is None
            &&& opening_outcome(v9) == Some(
                Ok::<AX206LCD, AX206Error>(
                    AX206LCD {
                        width: dimensions_of(response@).0,
                        height: dimensions_of(response@).1,
                        debug,
                        kernel_detached: true,
                    },
                ),
            )
        }),
{
    let v6 = opening_advanced(
        opening_advanced(
            opening_advanced(
                opening_advanced(
                    opening_advanced(
                        opening_advanced(
                            opening_started(vendor_id, product_id, debug),
                            Answer::Done,
                        ),
                        Answer::Done,
                    ),
                    Answer::Active(true),
                ),
                Answer::Done,
            ),
            Answer::Done,
        ),
        Answer::Done,
    );
    let v7 = opening_advanced(v6, Answer::Bulk(Reply::Written(sent)));
    let v8 = opening_advanced(v7, Answer::Bulk(Reply::Received(response)));
    let v9 = opening_advanced(v8, Answer::Bulk(Reply::Received(status_wrapper)));
    assert(v6.stage == Stage::Query);
    assert(v7.stage == Stage::Query);
    assert(v8.stage == Stage::Query);
    assert(v8.query.buffer == Some(
        crate::transport::filled(seq![0u8, 0u8, 0u8, 0u8, 0u8], response@),
    ));
    assert(crate::transport::filled(seq![0u8, 0u8, 0u8, 0u8, 0u8], response@) =~= response@);
    assert(v9.stage == Stage::Ready);
}

/// A kernel driver that is not active is left alone: the opening goes from
/// the question straight to the configuration, and nothing is owed for it
/// later.
pub proof fn lemma_inactive_driver_is_left_alone(v: OpeningView)
    requires
        v.stage == Stage::Probe,
    ensures
        ({
            let after = opening_advanced(v, Answer::Active(false));
            &&& after.stage == Stage::Configure
            &&& after.kernel_detached == v.kernel_detached
            &&& opening_pending(after) == Some(StepView::SetConfiguration { configuration: 1 })
        }),
{
}

/// Without a matching device the opening ends at once with
/// `DeviceNotFound`, and nothing is asked of the bus.
pub proof fn lemma_device_not_found(vendor_id: u16, product_id: u16, debug: bool)
    ensures
        ({
            let after = opening_advanced(
                opening_started(vendor_id, product_id, debug),
                Answer::NotFound,
            );
            &&& opening_outcome(after) == Some(
                Err::<AX206LCD, AX206Error>(AX206Error::DeviceNotFound),
            )
            &&& opening_pending(after) is None
        }),
{
}

/// An error while the dimension query runs is reported only after what was
/// taken has been given back, each thing once: first the interface is
/// released, then the kernel driver is attached again if it had been
/// detached. How the giving back goes changes neither its order nor the
/// error that is reported.
pub proof fn lemma_failed_query_gives_back(
    v: OpeningView,
    fault: UsbFault,
    released: Answer,
    attached: Answer,
)
    requires
        v.stage == Stage::Query,
        !(v.query.phase is Finished),
    ensures
        ({
            let error = AX206Error::UsbError(fault);
            let v1 = opening_advanced(v, Answer::Failed(fault));
            let v2 = opening_advanced(v1, released);
            let v3 = opening_advanced(v2, attached);
            &&& v1.stage == Stage::Cleanup(error)
            &&& opening_pending(v1) == Some(StepView::ReleaseInterface { interface: 0 })
            &&& opening_outcome(v1) is None
            &&& v.kernel_detached ==> {
                &&& opening_pending(v2) == Some(StepView::AttachKernelDriver { interface: 0 })
                &&& opening_outcome(v2) is None
                &&& opening_pending(v3) is None
                &&& opening_outcome(v3) == Some(Err::<AX206LCD, AX206Error>(error))
            }
            &&& !v.kernel_detached ==> {
                &&& opening_pending(v2) is None
                &&& opening_outcome(v2) == Some(Err::<AX206LCD, AX206Error>(error))
            }
        }),
{
}

/// A display that answers the dimension query with a non-zero status byte
/// is not opened: the error is `ScsiCommandFailed` with that byte, reported
/// after the interface has been released.
pub proof fn lemma_rejected_query(v: OpeningView, status_wrapper: Vec<u8>)
    requires
        v.stage == Stage::Query,
        v.query.phase is Status,
        status_wrapper@.len() == 13,
        status_wrapper@[12] != 0,
    ensures
        ({
            let after = opening_advanced(v, Answer::Bulk(Reply::Received(status_wrapper)));
            &&& after.stage == Stage::Cleanup(AX206Error::ScsiCommandFailed(status_wrapper@[12]))
            &&& opening_pending(after) == Some(StepView::ReleaseInterface { interface: 0 })
        }),
{
}

/// An error before the interface is claimed owes the system at most the
/// kernel driver: if it was detached it is attached again before the error
/// is reported, and otherwise the error is reported at once.
pub proof fn lemma_early_failure(v: OpeningView, fault: UsbFault, attached: Answer)
    requires
        v.stage == Stage::Open || v.stage == Stage::Probe || v.stage == Stage::Configure
            || v.stage == Stage::Claim,
    ensures
        ({
            let error = AX206Error::UsbError(fault);
            let v1 = opening_advanced(v, Answer::Failed(fault));
            let v2 = opening_advanced(v1, attached);
            &&& v.kernel_detached ==> {
                &&& opening_pending(v1) == Some(StepView::AttachKernelDriver { interface: 0 })
                &&& opening_pending(v2) is None
                &&& opening_outcome(v2) == Some(Err::<AX206LCD, AX206Error>(error))
            }
            &&& !v.kernel_detached ==> {
                &&& opening_pending(v1) is None
                &&& opening_outcome(v1) == Some(Err::<AX206LCD, AX206Error>(error))
            }
        }),
{
}

/// Closing a display gives back the interface and then, if the kernel
/// driver was detached on opening, the driver; after that nothing is owed,
/// so nothing is given back twice.
pub proof fn lemma_teardown_order(t: Teardown)
    requires
        t.release,
    ensures
        t.due() == Some(StepView::ReleaseInterface { interface: 0 }),
        t.reattach ==> t.settled().due() == Some(StepView::AttachKernelDriver { interface: 0 })
            && t.settled().settled().due() is None,
        !t.reattach ==> t.settled().due() is None,
        t.settled().settled().settled() == t.settled().settled(),
{
}

/// How many answers an opening can still take before it has come to an
/// end, at most.
pub open spec fn answers_left(v: OpeningView) -> nat {
    match v.stage {
        Stage::Find => 11,
        Stage::Open => 10,
        Stage::Probe => 9,
        Stage::Detach => 8,
        Stage::Configure => 7,
        Stage::Claim => 6,
        Stage::Query => match v.query.phase {
            Phase::Command => 5,
            Phase::Data => 4,
            Phase::Status => 3,
            Phase::Finished(_) => 3,
        },
        Stage::Cleanup(_) => if v.teardown.release && v.teardown.reattach {
            2
        } else {
            1
        },
        Stage::Ready => 0,
        Stage::Failed(_) => 0,
    }
}

/// Every answer brings an opening nearer to its end, so an opening comes
/// to an end after eleven answers at most, whatever they are. It has come
/// to an end exactly when no answer is left, and then answers change
/// nothing.
pub proof fn lemma_opening_ends(v: OpeningView, answer: Answer)
    ensures
        answers_left(v) > 0 ==> answers_left(opening_advanced(v, answer)) < answers_left(v),
        answers_left(v) == 0 ==> opening_advanced(v, answer) == v,
        answers_left(v) == 0 <==> opening_outcome(v) is Some,
        answers_left(opening_started(v.vendor_id, v.product_id, v.debug)) == 11,
{
}

} // verus!
