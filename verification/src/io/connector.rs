//! Utilities to monitor process events using the kernel process events
//! connector interface.
//!
//! A connector owns one netlink channel. This module decides what is done on
//! the channel and in which order; performing the operations is left to the
//! caller, who reports each outcome back.

pub mod byte_order;
pub mod cnproc;
pub mod filter;

use vstd::prelude::*;
use crate::io::connector::byte_order::ByteOrder;
use crate::io::connector::cnproc::{
    decode_event, event_of, nlmsg_length, sock_filter, subscription_bytes, subscription_datagram,
    McastOp, CN_IDX_PROC, CN_MSG_SIZE, EVENT_DATAGRAM_SIZE, PROC_EVENT_SIZE,
};
use crate::io::connector::filter::{filter_program, process_events_filter};
use crate::solver::domain::PEvent;

verus! {

/// Protocol family of netlink channels.
pub const PF_NETLINK: i32 = 16;

/// Address family of netlink channels.
pub const AF_NETLINK: u16 = 16;

/// Channel kind: datagrams.
pub const SOCK_DGRAM: i32 = 2;

/// Netlink protocol of the kernel connector.
pub const NETLINK_CONNECTOR: i32 = 11;

/// Option level of the channel itself.
pub const SOL_SOCKET: i32 = 1;

/// Option: the time a receive waits for data.
pub const SO_RCVTIMEO: i32 = 20;

/// Option: the filter program of the channel.
pub const SO_ATTACH_FILTER: i32 = 26;

/// Error code: the operation is not permitted.
pub const EPERM: i32 = 1;

/// Error code: no data yet, try again.
pub const EAGAIN: i32 = 11;

/// Error code: permission denied.
pub const EACCES: i32 = 13;

/// Seconds that a receive waits for a datagram.
pub const RECEIVE_TIMEOUT_SECONDS: u64 = 3;

/// Why an operation on the channel failed.
#[derive(Debug, Clone, Copy, PartialEq, Eq, Structural)]
pub enum ConnectorError {
    /// The process lacks the privilege that the channel requires. Holds the
    /// error code.
    Permission(i32),
    /// Any other failure. Holds the error code.
    Io(i32),
}

/// The error code says that a privilege is missing.
pub open spec fn is_permission_code(code: i32) -> bool {
    code == EPERM || code == EACCES
}

/// The error code says that no datagram arrived in time.
pub open spec fn is_no_data_code(code: i32) -> bool {
    code == EAGAIN
}

/// The failure that an error code stands for.
pub open spec fn failure_of(code: i32) -> ConnectorError {
    if is_permission_code(code) {
        ConnectorError::Permission(code)
    } else {
        ConnectorError::Io(code)
    }
}

impl ConnectorError {
    /// Tells a missing privilege from every other failure by the error code.
    pub fn from_code(code: i32) -> (error: ConnectorError)
        ensures
            error == failure_of(code),
    {
        if code == EPERM || code == EACCES {
            ConnectorError::Permission(code)
        } else {
            ConnectorError::Io(code)
        }
    }

    /// The error code of the failure.
    pub fn code(&self) -> (code: i32)
        ensures
            code == match *self {
                ConnectorError::Permission(c) => c,
                ConnectorError::Io(c) => c,
            },
    {
        match *self {
            ConnectorError::Permission(c) => c,
            ConnectorError::Io(c) => c,
        }
    }
}

/// The seconds of a receive timeout as the channel option holds them: the
/// given seconds, or the largest value of the option where they exceed it.
pub fn timeout_seconds(seconds: u64) -> (value: i64)
    ensures
        value == if seconds <= i64::MAX {
            seconds as int
        } else {
            i64::MAX as int
        },
{
    if seconds <= 0x7fff_ffff_ffff_ffff {
        seconds as i64
    } else {
        0x7fff_ffff_ffff_ffff
    }
}

/// How far a connector has come.
#[derive(Debug, Clone, Copy, PartialEq, Eq, Structural)]
pub enum Stage {
    /// No channel is open.
    Uninitialized,
    /// The channel is open.
    Opened,
    /// The channel is open and its receive timeout is set.
    TimeoutSet,
    /// The filter program is installed as well.
    Configured,
    /// The channel is bound to the process events group.
    Bound,
    /// The channel is subscribed: events can be pulled.
    Subscribed,
    /// The connector has given up its channel, or never got one.
    Disposed,
}

/// One operation on the channel, for the caller to perform.
#[derive(Debug, Clone, PartialEq, Eq)]
pub enum Request {
    /// Open a channel.
    Open { domain: i32, kind: i32, protocol: i32 },
    /// Set the time that a receive waits for data.
    SetReceiveTimeout { level: i32, name: i32, seconds: i64, microseconds: i64 },
    /// Install the filter program.
    AttachFilter { level: i32, name: i32, program: Vec<sock_filter> },
    /// Bind the channel to the groups of a netlink address.
    Bind { family: u16, port: u32, groups: u32 },
    /// Send a datagram.
    Send { datagram: Vec<u8> },
    /// Receive one datagram into a buffer of the given length.
    Receive { length: usize },
    /// Close the channel.
    Close,
}

/// A request with the contents of its sequences.
pub enum RequestView {
    Open { domain: i32, kind: i32, protocol: i32 },
    SetReceiveTimeout { level: i32, name: i32, seconds: i64, microseconds: i64 },
    AttachFilter { level: i32, name: i32, program: Seq<sock_filter> },
    Bind { family: u16, port: u32, groups: u32 },
    Send { datagram: Seq<u8> },
    Receive { length: usize },
    Close,
}

impl View for Request {
    type V = RequestView;

    open spec fn view(&self) -> RequestView {
        match *self {
            Request::Open { domain, kind, protocol } => RequestView::Open {
                domain,
                kind,
                protocol,
            },
            Request::SetReceiveTimeout {
                level,
                name,
                seconds,
                microseconds,
            } => RequestView::SetReceiveTimeout { level, name, seconds, microseconds },
            Request::AttachFilter { level, name, program } => RequestView::AttachFilter {
                level,
                name,
                program: program@,
            },
            Request::Bind { family, port, groups } => RequestView::Bind { family, port, groups },
            Request::Send { datagram } => RequestView::Send { datagram: datagram@ },
            Request::Receive { length } => RequestView::Receive { length },
            Request::Close => RequestView::Close,
        }
    }
}

/// What the report of an outcome leads to.
#[derive(Debug, Clone, Copy, PartialEq, Eq, Structural)]
pub enum Progress {
    /// The operation succeeded and another one follows.
    Pending,
    /// The connector is subscribed.
    Ready,
    /// The operation failed and the connector is disposed. `release` tells
    /// whether a channel is open, which the caller has to close.
    Failed { error: ConnectorError, release: bool },
    /// The connector was disposed before.
    Closed,
}

/// The operation that a connector in the given stage asks for: the next step
/// of its construction, a receive once it is subscribed, and none when it is
/// disposed.
pub open spec fn request_in(order: ByteOrder, stage: Stage) -> Option<RequestView> {
    match stage {
        Stage::Uninitialized => Some(
            RequestView::Open {
                domain: PF_NETLINK,
                kind: SOCK_DGRAM,
                protocol: NETLINK_CONNECTOR,
            },
        ),
        Stage::Opened => Some(
            RequestView::SetReceiveTimeout {
                level: SOL_SOCKET,
                name: SO_RCVTIMEO,
                seconds: RECEIVE_TIMEOUT_SECONDS as i64,
                microseconds: 0,
            },
        ),
        Stage::TimeoutSet => Some(
            RequestView::AttachFilter {
                level: SOL_SOCKET,
                name: SO_ATTACH_FILTER,
                program: filter_program(order),
            },
        ),
        Stage::Configured => Some(
            RequestView::Bind { family: AF_NETLINK, port: 0, groups: CN_IDX_PROC },
        ),
        Stage::Bound => Some(
            RequestView::Send { datagram: subscription_bytes(order, McastOp::Listen) },
        ),
        Stage::Subscribed => Some(RequestView::Receive { length: EVENT_DATAGRAM_SIZE }),
        Stage::Disposed => None,
    }
}

/// The stage that follows `stage` when its operation succeeded.
pub open spec fn stage_after(stage: Stage) -> Stage {
    match stage {
        Stage::Uninitialized => Stage::Opened,
        Stage::Opened => Stage::TimeoutSet,
        Stage::TimeoutSet => Stage::Configured,
        Stage::Configured => Stage::Bound,
        Stage::Bound => Stage::Subscribed,
        Stage::Subscribed => Stage::Subscribed,
        Stage::Disposed => Stage::Disposed,
    }
}

/// The connector is being constructed: it is neither subscribed nor disposed.
pub open spec fn under_construction(stage: Stage) -> bool {
    stage != Stage::Subscribed && stage != Stage::Disposed
}

/// A channel is open in this stage.
pub open spec fn holds_channel(stage: Stage) -> bool {
    stage != Stage::Uninitialized && stage != Stage::Disposed
}

/// What one pull yields from the outcome of a receive and the receive
/// buffer: nothing where no datagram arrived in time, the failure for every
/// other error, the decoded event for a datagram, and nothing for a datagram
/// that reports neither the start nor the end of a process.
pub open spec fn pulled(order: ByteOrder, outcome: Result<usize, i32>, buffer: Seq<u8>) -> Option<
    Result<PEvent, ConnectorError>,
> {
    match outcome {
        Err(code) => if is_no_data_code(code) {
            None
        } else {
            Some(Err(failure_of(code)))
        },
        Ok(_) => match event_of(order, buffer) {
            Some(event) => Some(Ok(event)),
            None => None,
        },
    }
}

/// A connector is constructed by five operations in a fixed order: open the
/// channel, set the receive timeout, install the filter program, bind to the
/// process events group, subscribe. After the fifth it is subscribed.
pub proof fn lemma_construction_pipeline(order: ByteOrder)
    ensures
        request_in(order, Stage::Uninitialized) is Some
            && request_in(order, Stage::Uninitialized)->0 is Open,
        stage_after(Stage::Uninitialized) == Stage::Opened,
        request_in(order, Stage::Opened) is Some
            && request_in(order, Stage::Opened)->0 is SetReceiveTimeout,
        stage_after(Stage::Opened) == Stage::TimeoutSet,
        request_in(order, Stage::TimeoutSet) is Some
            && request_in(order, Stage::TimeoutSet)->0 is AttachFilter,
        stage_after(Stage::TimeoutSet) == Stage::Configured,
        request_in(order, Stage::Configured) is Some
            && request_in(order, Stage::Configured)->0 is Bind,
        stage_after(Stage::Configured) == Stage::Bound,
        request_in(order, Stage::Bound) == Some(
            RequestView::Send { datagram: subscription_bytes(order, McastOp::Listen) },
        ),
        stage_after(Stage::Bound) == Stage::Subscribed,
        forall|stage: Stage| under_construction(stage) ==> stage_after(stage) != stage,
        forall|stage: Stage| under_construction(stage) ==> request_in(order, stage) is Some,
{
}

/// A connector to monitor process events.
///
/// The connector asks for one operation at a time and moves on when the
/// outcome is reported: open the channel, set the receive timeout, install
/// the filter program, bind to the process events group, subscribe. Once
/// subscribed it asks for receives. A failure, or disposal, ends it.
pub struct ProcessEventsConnector {
    stage: Stage,
    order: ByteOrder,
    handle: Option<i32>,
}

impl ProcessEventsConnector {
    /// The stage of the connector.
    pub closed spec fn spec_stage(&self) -> Stage {
        self.stage
    }

    /// The byte order of the host the connector runs on.
    pub closed spec fn spec_order(&self) -> ByteOrder {
        self.order
    }

    /// The number of the channel, while one is open.
    pub closed spec fn spec_handle(&self) -> Option<i32> {
        self.handle
    }

    /// The connector holds the number of a channel exactly in the stages in
    /// which a channel is open.
    pub open spec fn wf(&self) -> bool {
        self.spec_handle().is_some() == holds_channel(self.spec_stage())
    }

    /// A connector without a channel, on a host of the given byte order.
    pub fn new(order: ByteOrder) -> (connector: ProcessEventsConnector)
        ensures
            connector.wf(),
            connector.spec_stage() == Stage::Uninitialized,
            connector.spec_order() == order,
            connector.spec_handle().is_none(),
    {
        ProcessEventsConnector { stage: Stage::Uninitialized, order, handle: None }
    }

    /// The stage of the connector.
    #[verifier::when_used_as_spec(spec_stage)]
    pub fn stage(&self) -> (stage: Stage)
        ensures
            stage == self.spec_stage(),
    {
        self.stage
    }

    /// The byte order of the host the connector runs on.
    #[verifier::when_used_as_spec(spec_order)]
    pub fn order(&self) -> (order: ByteOrder)
        ensures
            order == self.spec_order(),
    {
        self.order
    }

    /// The number of the channel, while one is open.
    #[verifier::when_used_as_spec(spec_handle)]
    pub fn handle(&self) -> (handle: Option<i32>)
        ensures
            handle == self.spec_handle(),
    {
        self.handle
    }

    /// The operation to perform next, if there is one.
    pub fn request(&self) -> (request: Option<Request>)
        ensures
            request.is_some() == request_in(self.spec_order(), self.spec_stage()).is_some(),
            request.is_some() ==> request.unwrap()@ == request_in(
                self.spec_order(),
                self.spec_stage(),
            ).unwrap(),
    {
        match self.stage {
            Stage::Uninitialized => Some(
                Request::Open {
                    domain: PF_NETLINK,
                    kind: SOCK_DGRAM,
                    protocol: NETLINK_CONNECTOR,
                },
            ),
            Stage::Opened => Some(
                Request::SetReceiveTimeout {
                    level: SOL_SOCKET,
                    name: SO_RCVTIMEO,
                    seconds: timeout_seconds(RECEIVE_TIMEOUT_SECONDS),
                    microseconds: 0,
                },
            ),
            Stage::TimeoutSet => Some(
                Request::AttachFilter {
                    level: SOL_SOCKET,
                    name: SO_ATTACH_FILTER,
                    program: process_events_filter(self.order),
                },
            ),
            Stage::Configured => Some(
                Request::Bind { family: AF_NETLINK, port: 0, groups: CN_IDX_PROC },
            ),
            Stage::Bound => Some(
                Request::Send { datagram: subscription_datagram(self.order, McastOp::Listen) },
            ),
            Stage::Subscribed => Some(
                Request::Receive { length: nlmsg_length(CN_MSG_SIZE + PROC_EVENT_SIZE) },
            ),
            Stage::Disposed => None,
        }
    }

    /// Takes the outcome of the operation that was asked for: its result, or
    /// its error code.
    ///
    /// While the connector is under construction, a success moves it to the
    /// next stage, and the first success gives it the number of its channel.
    /// A failure disposes of it: no connector that is partly built can be
    /// used, and the caller is told to close the channel if one is open.
    /// Once subscribed or disposed, the connector stays as it is.
    pub fn advance(&mut self, outcome: Result<i32, i32>) -> (progress: Progress)
        ensures
            old(self).wf() ==> final(self).wf(),
            final(self).spec_order() == old(self).spec_order(),
            !under_construction(old(self).spec_stage()) ==> *final(self) == *old(self),
            old(self).spec_stage() == Stage::Disposed ==> progress == Progress::Closed,
            old(self).spec_stage() == Stage::Subscribed ==> progress == Progress::Ready,
            under_construction(old(self).spec_stage()) ==> match outcome {
                Ok(value) => {
                    &&& final(self).spec_stage() == stage_after(old(self).spec_stage())
                    &&& final(self).spec_handle() == (if old(self).spec_stage()
                        == Stage::Uninitialized {
                        Some(value)
                    } else {
                        old(self).spec_handle()
                    })
                    &&& progress == (if old(self).spec_stage() == Stage::Bound {
                        Progress::Ready
                    } else {
                        Progress::Pending
                    })
                },
                Err(code) => {
                    &&& final(self).spec_stage() == Stage::Disposed
                    &&& final(self).spec_handle().is_none()
                    &&& progress == (Progress::Failed {
                        error: failure_of(code),
                        release: old(self).spec_handle().is_some(),
                    })
                },
            },
    {
        match self.stage {
            Stage::Disposed => Progress::Closed,
            Stage::Subscribed => Progress::Ready,
            _ => match outcome {
                Ok(value) => {
                    let progress = match self.stage {
                        Stage::Bound => Progress::Ready,
                        _ => Progress::Pending,
                    };
                    let next = match self.stage {
                        Stage::Uninitialized => Stage::Opened,
                        Stage::Opened => Stage::TimeoutSet,
                        Stage::TimeoutSet => Stage::Configured,
                        Stage::Configured => Stage::Bound,
                        _ => Stage::Subscribed,
                    };
                    if let Stage::Uninitialized = self.stage {
                        self.handle = Some(value);
                    }
                    self.stage = next;
                    progress
                },
                Err(code) => {
                    let release: bool = self.handle.is_some();
                    self.stage = Stage::Disposed;
                    self.handle = None;
                    Progress::Failed { error: ConnectorError::from_code(code), release }
                },
            },
        }
    }

    /// Turns the outcome of a receive into what one pull yields.
    ///
    /// `outcome` is the number of bytes received, or the error code;
    /// `buffer` is the receive buffer after the call. Events are pulled
    /// from a subscribed connector only: before it is subscribed and after
    /// it is disposed there is no receive to speak of.
    pub fn next(&self, outcome: Result<usize, i32>, buffer: &[u8]) -> (item: Option<
        Result<PEvent, ConnectorError>,
    >)
        requires
            self.spec_stage() == Stage::Subscribed,
        ensures
            item == pulled(self.spec_order(), outcome, buffer@),
    {
        match outcome {
            Err(code) => if code == EAGAIN {
                None
            } else {
                Some(Err(ConnectorError::from_code(code)))
            },
            Ok(_) => match decode_event(buffer, self.order) {
                Some(event) => Some(Ok(event)),
                None => None,
            },
        }
    }

    /// Disposes of the connector and returns what is left to do on its
    /// channel, in order: a subscribed connector unsubscribes, and one that
    /// holds a channel closes it. Whatever these operations return, the
    /// connector is disposed.
    pub fn dispose(&mut self) -> (requests: Vec<Request>)
        ensures
            final(self).wf(),
            final(self).spec_stage() == Stage::Disposed,
            final(self).spec_handle().is_none(),
            final(self).spec_order() == old(self).spec_order(),
            requests@.map_values(|r: Request| r@) == disposal(
                old(self).spec_order(),
                old(self).spec_stage(),
                old(self).spec_handle().is_some(),
            ),
            requests@.len() == (if old(self).spec_stage() == Stage::Subscribed {
                1int
            } else {
                0int
            }) + (if old(self).spec_handle().is_some() {
                1int
            } else {
                0int
            }),
    {
        let ghost before = *self;
        let mut requests: Vec<Request> = Vec::new();
        if let Stage::Subscribed = self.stage {
            requests.push(
                Request::Send { datagram: subscription_datagram(self.order, McastOp::Ignore) },
            );
        }
        if self.handle.is_some() {
            requests.push(Request::Close);
        }
        self.stage = Stage::Disposed;
        self.handle = None;
        assert(requests@.map_values(|r: Request| r@) =~= disposal(
            before.spec_order(),
            before.spec_stage(),
            before.spec_handle().is_some(),
        ));
        requests
    }
}

/// The operations that dispose of a connector in the given stage, which
/// holds a channel or not: the unsubscription where it is subscribed, then
/// the close where it holds a channel.
pub open spec fn disposal(order: ByteOrder, stage: Stage, open: bool) -> Seq<RequestView> {
    let unsubscribe = if stage == Stage::Subscribed {
        seq![RequestView::Send { datagram: subscription_bytes(order, McastOp::Ignore) }]
    } else {
        seq![]
    };
    let close = if open {
        seq![RequestView::Close]
    } else {
        seq![]
    };
    unsubscribe + close
}

/// A subscribed connector in good order is disposed of by an unsubscription
/// and a close, in this order; a connector without a channel by nothing.
pub proof fn lemma_disposal(order: ByteOrder, stage: Stage, open: bool)
    requires
        open == holds_channel(stage),
    ensures
        stage == Stage::Subscribed ==> disposal(order, stage, open) == seq![
            RequestView::Send { datagram: subscription_bytes(order, McastOp::Ignore) },
            RequestView::Close,
        ],
        under_construction(stage) && stage != Stage::Uninitialized ==> disposal(order, stage, open)
            == seq![RequestView::Close],
        !holds_channel(stage) ==> disposal(order, stage, open) == Seq::<RequestView>::empty(),
{
    if stage == Stage::Subscribed {
        assert(disposal(order, stage, open) =~= seq![
            RequestView::Send { datagram: subscription_bytes(order, McastOp::Ignore) },
            RequestView::Close,
        ]);
    } else if holds_channel(stage) {
        assert(disposal(order, stage, open) =~= seq![RequestView::Close]);
    } else {
        assert(disposal(order, stage, open) =~= Seq::<RequestView>::empty());
    }
}

} // verus!
