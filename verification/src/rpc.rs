//! Calls to applets and platforms: what to read, send, receive and write, in which order.
use std::path::PathBuf;
use vstd::prelude::*;

verus! {

/// Parameters for an applet or platform RPC.
pub struct Rpc {
    /// Reads the request from this file instead of standard input.
    pub input: Option<PathBuf>,
    /// Writes the response to this file instead of standard output.
    pub output: Option<PathBuf>,
}

/// Where to read the request from.
pub enum Source<'a> {
    /// This file.
    File(&'a PathBuf),
    /// Standard input.
    Stdin,
}

/// Where to write the response to.
pub enum Target<'a> {
    /// This file.
    File(&'a PathBuf),
    /// Standard output.
    Stdout,
}

/// A response to write.
pub struct Output<'a> {
    /// Where to.
    pub target: Target<'a>,
    /// All of its bytes.
    pub bytes: &'a [u8],
}

impl Rpc {
    /// Returns where to read the request from.
    pub fn read(&self) -> (source: Source<'_>)
        ensures
            source == (match self.input {
                Some(path) => Source::File(&path),
                None => Source::Stdin,
            }),
    {
        match &self.input {
            Some(path) => Source::File(path),
            None => Source::Stdin,
        }
    }

    /// Returns what to write, and where to.
    pub fn write<'a>(&'a self, response: &'a [u8]) -> (output: Output<'a>)
        ensures
            output.target == (match self.output {
                Some(path) => Target::File(&path),
                None => Target::Stdout,
            }),
            output.bytes@ == response@,
    {
        match &self.output {
            Some(path) => Output { target: Target::File(path), bytes: response },
            None => Output { target: Target::Stdout, bytes: response },
        }
    }
}

/// Calls an RPC to an applet on a platform.
pub struct AppletRpc {
    /// Applet identifier in the platform.
    pub applet: Option<String>,
    /// Where the request comes from and the response goes to.
    pub rpc: Rpc,
    /// Number of retries to receive a response.
    pub retries: usize,
}

/// A call to an applet on its way.
pub struct AppletSession {
    /// Where the request comes from and the response goes to.
    pub rpc: Rpc,
    /// How often a response may be asked for in all.
    pub retries: usize,
    /// How often a response may still be asked for.
    pub left: usize,
}

/// Why a call to an applet failed.
pub enum AppletRpcError<E> {
    /// The request could not be read or sent, or a response could not be asked for.
    Io(E),
    /// An applet was named.
    AppletIdentifier,
    /// The applet did not respond.
    NoResponse {
        /// How often it was asked.
        retries: usize,
    },
}

impl<E> AppletRpcError<E> {
    /// The message of the error, unless it is an outside one.
    pub open spec fn spec_message(self) -> Option<Seq<char>> {
        match self {
            AppletRpcError::Io(_) => None,
            AppletRpcError::AppletIdentifier => Some(
                "applet identifiers are not supported yet"@,
            ),
            AppletRpcError::NoResponse { retries } => Some(
                "did not receive a response after "@ + crate::text::decimal(retries as nat)
                    + " retries"@,
            ),
        }
    }

    /// Returns the message of the error, unless it is an outside one.
    pub fn message(&self) -> (message: Option<String>)
        ensures
            match self.spec_message() {
                Some(text) => message is Some && message->0@ == text,
                None => message is None,
            },
    {
        match self {
            AppletRpcError::Io(_) => None,
            AppletRpcError::AppletIdentifier => Some(
                "applet identifiers are not supported yet".to_string(),
            ),
            AppletRpcError::NoResponse { retries } => {
                let retries = crate::text::decimal_string(*retries as u128);
                Some(
                    "did not receive a response after ".to_string().concat(
                        retries.as_str(),
                    ).concat(" retries"),
                )
            },
        }
    }
}

/// What to do next in a call to an applet.
pub enum AppletStep<E> {
    /// Read the request from where `Rpc::read` says, and hand the outcome to
    /// `AppletSession::requested`.
    Read(AppletSession),
    /// Send this request to the applet, and hand the outcome to `AppletSession::sent`.
    Send {
        /// The call.
        session: AppletSession,
        /// The request.
        request: Vec<u8>,
    },
    /// Ask the applet for its response, and hand the outcome to
    /// `AppletSession::received`.
    Receive(AppletSession),
    /// Write this response to where `Rpc::write` says. The call ends as that does.
    Write {
        /// Where the response goes to.
        rpc: Rpc,
        /// The response.
        response: Vec<u8>,
    },
    /// The call failed.
    Failed(AppletRpcError<E>),
}

impl AppletRpc {
    /// How the call starts.
    pub open spec fn start<E>(self) -> AppletStep<E> {
        if self.applet is Some {
            AppletStep::Failed(AppletRpcError::AppletIdentifier)
        } else {
            AppletStep::Read(
                AppletSession { rpc: self.rpc, retries: self.retries, left: self.retries },
            )
        }
    }

    /// Starts the call.
    pub fn run<E>(self) -> (step: AppletStep<E>)
        ensures
            step == self.start::<E>(),
    {
        let AppletRpc { applet, rpc, retries } = self;
        match applet {
            Some(_) => AppletStep::Failed(AppletRpcError::AppletIdentifier),
            None => AppletStep::Read(AppletSession { rpc, retries, left: retries }),
        }
    }
}

impl AppletSession {
    /// How the call goes on while there is no response: the applet is asked again, as
    /// often as it may be.
    pub open spec fn next<E>(self) -> AppletStep<E> {
        if self.left > 0 {
            AppletStep::Receive(AppletSession { left: (self.left - 1) as usize, ..self })
        } else {
            AppletStep::Failed(AppletRpcError::NoResponse { retries: self.retries })
        }
    }

    /// How the call goes on once the request was read.
    pub open spec fn after_request<E>(self, request: Result<Vec<u8>, E>) -> AppletStep<E> {
        match request {
            Ok(request) => AppletStep::Send { session: self, request },
            Err(error) => AppletStep::Failed(AppletRpcError::Io(error)),
        }
    }

    /// How the call goes on once the request was sent.
    pub open spec fn after_sent<E>(self, sent: Result<(), E>) -> AppletStep<E> {
        match sent {
            Ok(_) => self.next(),
            Err(error) => AppletStep::Failed(AppletRpcError::Io(error)),
        }
    }

    /// How the call goes on once the applet was asked for its response.
    pub open spec fn after_reply<E>(self, reply: Result<Option<Vec<u8>>, E>) -> AppletStep<E> {
        match reply {
            Ok(Some(response)) => AppletStep::Write { rpc: self.rpc, response },
            Ok(None) => self.next(),
            Err(error) => AppletStep::Failed(AppletRpcError::Io(error)),
        }
    }

    /// Asks the applet again, if it may still be asked.
    fn proceed<E>(self) -> (step: AppletStep<E>)
        ensures
            step == self.next::<E>(),
    {
        let mut session = self;
        if session.left > 0 {
            session.left = session.left - 1;
            AppletStep::Receive(session)
        } else {
            AppletStep::Failed(AppletRpcError::NoResponse { retries: session.retries })
        }
    }

    /// Goes on once the request was read.
    pub fn requested<E>(self, request: Result<Vec<u8>, E>) -> (step: AppletStep<E>)
        ensures
            step == self.after_request(request),
    {
        match request {
            Ok(request) => AppletStep::Send { session: self, request },
            Err(error) => AppletStep::Failed(AppletRpcError::Io(error)),
        }
    }

    /// Goes on once the request was sent.
    pub fn sent<E>(self, sent: Result<(), E>) -> (step: AppletStep<E>)
        ensures
            step == self.after_sent(sent),
    {
        match sent {
            Ok(()) => self.proceed(),
            Err(error) => AppletStep::Failed(AppletRpcError::Io(error)),
        }
    }

    /// Goes on once the applet was asked for its response.
    pub fn received<E>(self, reply: Result<Option<Vec<u8>>, E>) -> (step: AppletStep<E>)
        ensures
            step == self.after_reply(reply),
    {
        match reply {
            Ok(Some(response)) => AppletStep::Write { rpc: self.rpc, response },
            Ok(None) => self.proceed(),
            Err(error) => AppletStep::Failed(AppletRpcError::Io(error)),
        }
    }
}

/// The step that asks the applet for no more responses, after the one that is given: the
/// applet answers with the first reply that is left.
pub open spec fn last_step<E>(
    step: AppletStep<E>,
    replies: Seq<Result<Option<Vec<u8>>, E>>,
) -> AppletStep<E>
    decreases
        match step {
            AppletStep::Receive(session) => session.left + 1,
            _ => 0,
        },
{
    match step {
        AppletStep::Receive(session) => last_step(
            session.after_reply(replies[0]),
            replies.skip(1),
        ),
        _ => step,
    }
}

/// How often the applet is asked for its response until then.
pub open spec fn times_asked<E>(
    step: AppletStep<E>,
    replies: Seq<Result<Option<Vec<u8>>, E>>,
) -> nat
    decreases
        match step {
            AppletStep::Receive(session) => session.left + 1,
            _ => 0,
        },
{
    match step {
        AppletStep::Receive(session) => 1 + times_asked(
            session.after_reply(replies[0]),
            replies.skip(1),
        ),
        _ => 0,
    }
}

impl AppletRpc {
    /// The step that follows the request, if the call gets as far as that.
    pub open spec fn after_request<E>(
        self,
        request: Result<Vec<u8>, E>,
        sent: Result<(), E>,
    ) -> AppletStep<E> {
        match self.start::<E>() {
            AppletStep::Read(session) => match session.after_request(request) {
                AppletStep::Send { session, .. } => session.after_sent(sent),
                step => step,
            },
            step => step,
        }
    }
}

proof fn lemma_decided<E>(
    session: AppletSession,
    replies: Seq<Result<Option<Vec<u8>>, E>>,
    k: int,
)
    requires
        0 <= k < session.left,
        k < replies.len(),
        forall|i: int| 0 <= i < k ==> replies[i] == Ok::<Option<Vec<u8>>, E>(None),
        replies[k] != Ok::<Option<Vec<u8>>, E>(None),
    ensures
        last_step(session.next(), replies) == session.after_reply(replies[k]),
        times_asked(session.next(), replies) == k + 1,
    decreases k,
{
    let asked = AppletSession { left: (session.left - 1) as usize, ..session };
    let step = asked.after_reply(replies[0]);
    if k == 0 {
        assert(last_step(step, replies.skip(1)) == step);
        assert(times_asked(step, replies.skip(1)) == 0);
    } else {
        lemma_decided(asked, replies.skip(1), k - 1);
    }
}

proof fn lemma_undecided<E>(session: AppletSession, replies: Seq<Result<Option<Vec<u8>>, E>>)
    requires
        session.left <= replies.len(),
        forall|i: int| 0 <= i < session.left ==> replies[i] == Ok::<Option<Vec<u8>>, E>(None),
    ensures
        last_step(session.next(), replies) == AppletStep::Failed(
            AppletRpcError::<E>::NoResponse { retries: session.retries },
        ),
        times_asked(session.next(), replies) == session.left,
    decreases session.left,
{
    if session.left > 0 {
        let asked = AppletSession { left: (session.left - 1) as usize, ..session };
        assert(replies[0] == Ok::<Option<Vec<u8>>, E>(None));
        lemma_undecided(asked, replies.skip(1));
    }
}

/// A call that names an applet fails before it reads, sends or asks for anything.
pub proof fn law_named_applet_is_refused<E>(call: AppletRpc)
    requires
        call.applet is Some,
    ensures
        call.start::<E>() == AppletStep::Failed(AppletRpcError::<E>::AppletIdentifier),
{
}

/// Of the replies to as many questions as there are retries, the first that is a response
/// or a failure decides: the response is written, and the failure ends the call. The
/// applet is not asked again.
pub proof fn law_first_response_decides<E>(
    call: AppletRpc,
    request: Vec<u8>,
    replies: Seq<Result<Option<Vec<u8>>, E>>,
    k: int,
)
    requires
        call.applet is None,
        0 <= k < call.retries,
        k < replies.len(),
        forall|i: int| 0 <= i < k ==> replies[i] == Ok::<Option<Vec<u8>>, E>(None),
        replies[k] != Ok::<Option<Vec<u8>>, E>(None),
    ensures
        last_step(call.after_request(Ok(request), Ok(())), replies) == (match replies[k] {
            Ok(response) => AppletStep::Write { rpc: call.rpc, response: response->0 },
            Err(error) => AppletStep::Failed(AppletRpcError::Io(error)),
        }),
        times_asked(call.after_request(Ok(request), Ok(())), replies) == k + 1,
{
    lemma_decided(
        AppletSession { rpc: call.rpc, retries: call.retries, left: call.retries },
        replies,
        k,
    );
}

/// A call fails if the applet has no response to any of as many questions as there are
/// retries, and it is asked no more often than that.
pub proof fn law_call_gives_up_after_retries<E>(
    call: AppletRpc,
    request: Vec<u8>,
    replies: Seq<Result<Option<Vec<u8>>, E>>,
)
    requires
        call.applet is None,
        call.retries <= replies.len(),
        forall|i: int| 0 <= i < call.retries ==> replies[i] == Ok::<Option<Vec<u8>>, E>(None),
    ensures
        last_step(call.after_request(Ok(request), Ok(())), replies) == AppletStep::Failed(
            AppletRpcError::<E>::NoResponse { retries: call.retries },
        ),
        times_asked(call.after_request(Ok(request), Ok(())), replies) == call.retries,
{
    lemma_undecided(
        AppletSession { rpc: call.rpc, retries: call.retries, left: call.retries },
        replies,
    );
}

/// Calls a vendor RPC on a platform.
pub struct PlatformRpc {
    /// Where the request comes from and the response goes to.
    pub rpc: Rpc,
}

/// What to do next in a call to a platform.
pub enum PlatformStep<E> {
    /// Read the request from where `Rpc::read` says, and hand the outcome to
    /// `PlatformRpc::requested`.
    Read(PlatformRpc),
    /// Call the platform with this request, and hand the outcome to
    /// `PlatformRpc::answered`.
    Call {
        /// The call.
        call: PlatformRpc,
        /// The request.
        request: Vec<u8>,
    },
    /// Write this response to where `Rpc::write` says. The call ends as that does.
    Write {
        /// Where the response goes to.
        rpc: Rpc,
        /// The response.
        response: Vec<u8>,
    },
    /// The call failed.
    Failed(E),
}

impl PlatformRpc {
    /// Starts the call.
    pub fn run<E>(self) -> (step: PlatformStep<E>)
        ensures
            step == PlatformStep::<E>::Read(self),
    {
        PlatformStep::Read(self)
    }

    /// Goes on once the request was read.
    pub fn requested<E>(self, request: Result<Vec<u8>, E>) -> (step: PlatformStep<E>)
        ensures
            step == (match request {
                Ok(request) => PlatformStep::Call { call: self, request },
                Err(error) => PlatformStep::Failed(error),
            }),
    {
        match request {
            Ok(request) => PlatformStep::Call { call: self, request },
            Err(error) => PlatformStep::Failed(error),
        }
    }

    /// Goes on once the platform was called.
    pub fn answered<E>(self, response: Result<Vec<u8>, E>) -> (step: PlatformStep<E>)
        ensures
            step == (match response {
                Ok(response) => PlatformStep::Write { rpc: self.rpc, response },
                Err(error) => PlatformStep::Failed(error),
            }),
    {
        match response {
            Ok(response) => PlatformStep::Write { rpc: self.rpc, response },
            Err(error) => PlatformStep::Failed(error),
        }
    }
}

/// Errors of the USB library.
#[derive(Debug, Clone, Copy, PartialEq, Eq, Structural)]
pub enum UsbError {
    Io,
    InvalidParam,
    Access,
    NoDevice,
    NotFound,
    Busy,
    Timeout,
    Overflow,
    Pipe,
    Interrupted,
    NoMem,
    NotSupported,
    BadDescriptor,
    Other,
}

/// Reboots a platform.
pub struct PlatformReboot {}

/// What to do next to reboot a platform.
pub enum RebootStep<E> {
    /// Wait for an answer. A platform that reboots has none to give, so this ends with an
    /// error, which is for `PlatformReboot::received`.
    Receive(PlatformReboot),
    /// The reboot failed.
    Failed(E),
}

impl PlatformReboot {
    /// Goes on once the request to reboot was sent.
    pub fn run<E>(self, sent: Result<(), E>) -> (step: RebootStep<E>)
        ensures
            step == (match sent {
                Ok(_) => RebootStep::Receive(self),
                Err(error) => RebootStep::Failed(error),
            }),
    {
        match sent {
            Ok(()) => RebootStep::Receive(self),
            Err(error) => RebootStep::Failed(error),
        }
    }

    /// Ends the reboot once no answer came. The reboot took place if the platform kept
    /// silent or went away, which is what the USB error says that the error is, if any.
    pub fn received<E>(self, error: E, usb: Option<UsbError>) -> (r: Result<(), E>)
        ensures
            r == (if usb == Some(UsbError::Timeout) || usb == Some(UsbError::NoDevice) {
                Ok(())
            } else {
                Err(error)
            }),
    {
        match usb {
            Some(UsbError::Timeout | UsbError::NoDevice) => Ok(()),
            _ => Err(error),
        }
    }
}

/// The request is read from the file that was given for it, or else from standard input,
/// and the whole response is written to the file that was given for that, or else to
/// standard output. Neither depends on the other.
pub proof fn law_files_stand_for_the_standard_streams<'a>(
    rpc: Rpc,
    response: &'a [u8],
    source: Source<'a>,
    output: Output<'a>,
)
    requires
        call_ensures(Rpc::read, (&rpc,), source),
        call_ensures(Rpc::write, (&rpc, response), output),
    ensures
        source is Stdin <==> rpc.input is None,
        rpc.input matches Some(path) ==> source matches Source::File(file) && *file == path,
        output.target is Stdout <==> rpc.output is None,
        rpc.output matches Some(path) ==> output.target matches Target::File(file) && *file
            == path,
        output.bytes@ == response@,
{
}

/// A call that names no applet reads the request from where it was told, and sends all of
/// it, as it was read. A request that cannot be read or sent ends the call with that error.
pub proof fn law_request_is_sent_as_it_was_read<E>(
    call: AppletRpc,
    read: AppletStep<E>,
    request: Vec<u8>,
    send: AppletStep<E>,
    error: E,
    unread: AppletStep<E>,
    unsent: AppletStep<E>,
)
    requires
        call.applet is None,
        call_ensures(AppletRpc::run::<E>, (call,), read),
        read matches AppletStep::Read(session) ==> {
            &&& call_ensures(AppletSession::requested::<E>, (session, Ok(request)), send)
            &&& call_ensures(AppletSession::requested::<E>, (session, Err(error)), unread)
            &&& call_ensures(AppletSession::sent::<E>, (session, Err(error)), unsent)
        },
    ensures
        read matches AppletStep::Read(session) && session.rpc == call.rpc && session.retries
            == call.retries && session.left == call.retries && send == (AppletStep::<E>::Send {
            session,
            request,
        }),
        unread == AppletStep::Failed(AppletRpcError::Io(error)),
        unsent == AppletStep::Failed(AppletRpcError::Io(error)),
{
}

/// Each reply decides the next step of a call: a response is written, all of it and to
/// where it was told, an error ends the call, and without a response the applet is asked
/// again, with one question less to go, or the call fails if there is none to go. Once the
/// request was sent, the call goes on as if there was no response yet.
pub proof fn law_reply_decides_the_next_step<E>(
    session: AppletSession,
    response: Vec<u8>,
    error: E,
    answered: AppletStep<E>,
    failed: AppletStep<E>,
    silent: AppletStep<E>,
    sent: AppletStep<E>,
)
    requires
        call_ensures(AppletSession::received::<E>, (session, Ok(Some(response))), answered),
        call_ensures(AppletSession::received::<E>, (session, Err(error)), failed),
        call_ensures(AppletSession::received::<E>, (session, Ok(None)), silent),
        call_ensures(AppletSession::sent::<E>, (session, Ok(())), sent),
    ensures
        answered == (AppletStep::<E>::Write { rpc: session.rpc, response }),
        failed == AppletStep::Failed(AppletRpcError::Io(error)),
        sent == silent,
        session.left == 0 ==> silent == AppletStep::Failed(
            AppletRpcError::<E>::NoResponse { retries: session.retries },
        ),
        session.left > 0 ==> {
            &&& silent matches AppletStep::Receive(next)
            &&& next.left + 1 == session.left
            &&& next.retries == session.retries
            &&& next.rpc == session.rpc
        },
{
}

/// A call that names an applet, whatever its name, is refused at once.
pub proof fn law_any_named_applet_is_refused<E>(call: AppletRpc, step: AppletStep<E>)
    requires
        call_ensures(AppletRpc::run::<E>, (call,), step),
    ensures
        call.applet is Some <==> step == AppletStep::Failed(
            AppletRpcError::<E>::AppletIdentifier,
        ),
        call.applet is None <==> step is Read,
{
}

/// The message of a call without a response has the number of retries between its words,
/// and each error of the library itself has a message.
pub proof fn law_message_counts_the_retries<E>(error: AppletRpcError<E>, message: Option<String>)
    requires
        call_ensures(AppletRpcError::<E>::message, (&error,), message),
    ensures
        message is None <==> error is Io,
        error is AppletIdentifier ==> message->0@ == "applet identifiers are not supported yet"@,
        error matches AppletRpcError::NoResponse { retries } ==> exists|digits: Seq<char>| #[trigger]
            crate::text::is_decimal(digits, retries as int) && message->0@
                == "did not receive a response after "@ + digits + " retries"@,
{
    if let AppletRpcError::NoResponse { retries } = error {
        crate::text::law_digits_stand_for_the_number(retries as nat);
    }
}

/// A call to a platform passes the request on as it was read and the response as it came,
/// from and to where it was told, and ends with the error of what fails.
pub proof fn law_platform_call_passes_on<E>(
    call: PlatformRpc,
    request: Vec<u8>,
    response: Vec<u8>,
    error: E,
    start: PlatformStep<E>,
    requested: PlatformStep<E>,
    unread: PlatformStep<E>,
    answered: PlatformStep<E>,
    unanswered: PlatformStep<E>,
)
    requires
        call_ensures(PlatformRpc::run::<E>, (call,), start),
        call_ensures(PlatformRpc::requested::<E>, (call, Ok(request)), requested),
        call_ensures(PlatformRpc::requested::<E>, (call, Err(error)), unread),
        call_ensures(PlatformRpc::answered::<E>, (call, Ok(response)), answered),
        call_ensures(PlatformRpc::answered::<E>, (call, Err(error)), unanswered),
    ensures
        start == PlatformStep::<E>::Read(call),
        requested == (PlatformStep::<E>::Call { call, request }),
        unread == PlatformStep::Failed(error),
        answered == (PlatformStep::<E>::Write { rpc: call.rpc, response }),
        unanswered == PlatformStep::Failed(error),
{
}

/// A reboot took place exactly if the request was sent and the platform kept silent or went
/// away. Every other error is the error of the reboot.
pub proof fn law_reboot_ends_in_silence<E>(
    reboot: PlatformReboot,
    sent: Result<(), E>,
    step: RebootStep<E>,
    error: E,
    usb: Option<UsbError>,
    r: Result<(), E>,
)
    requires
        call_ensures(PlatformReboot::run::<E>, (reboot, sent), step),
        call_ensures(PlatformReboot::received::<E>, (reboot, error, usb), r),
    ensures
        step is Receive <==> sent is Ok,
        sent matches Err(e) ==> step == RebootStep::Failed(e),
        r is Ok <==> usb is Some && (usb->0 is Timeout || usb->0 is NoDevice),
        r is Err ==> r->Err_0 == error,
{
}

} // verus!
