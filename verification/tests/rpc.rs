use std::path::{Path, PathBuf};

use wasefire_tools::rpc::{
    AppletRpc, AppletRpcError, AppletSession, AppletStep, PlatformReboot, PlatformRpc,
    PlatformStep, RebootStep, Rpc, Source, Target, UsbError,
};

type Reply = Result<Option<Vec<u8>>, &'static str>;

fn files() -> Rpc {
    Rpc { input: Some(PathBuf::from("request.bin")), output: Some(PathBuf::from("response.bin")) }
}

fn streams() -> Rpc {
    Rpc { input: None, output: None }
}

fn call(retries: usize) -> AppletRpc {
    AppletRpc { applet: None, rpc: files(), retries }
}

fn asked(retries: usize) -> AppletStep<&'static str> {
    let session = match call(retries).run::<&'static str>() {
        AppletStep::Read(session) => session,
        _ => panic!(),
    };
    match session.requested(Ok::<_, &'static str>(vec![1, 2])) {
        AppletStep::Send { session, request } => {
            assert_eq!(request, [1, 2]);
            session.sent(Ok(()))
        }
        _ => panic!(),
    }
}

fn drive(mut step: AppletStep<&'static str>, replies: &[Reply]) -> (AppletStep<&'static str>, usize) {
    let mut count = 0;
    while let AppletStep::Receive(session) = step {
        step = session.received(replies[count].clone());
        count += 1;
    }
    (step, count)
}

#[test]
fn request_comes_from_the_file_or_standard_input() {
    match files().read() {
        Source::File(path) => assert_eq!(path, Path::new("request.bin")),
        Source::Stdin => panic!(),
    }
    assert!(matches!(streams().read(), Source::Stdin));
}

#[test]
fn response_goes_to_the_file_or_standard_output() {
    let rpc = files();
    let output = rpc.write(&[5, 6]);
    assert_eq!(output.bytes, [5, 6]);
    match output.target {
        Target::File(path) => assert_eq!(path, Path::new("response.bin")),
        Target::Stdout => panic!(),
    }
    let rpc = streams();
    let output = rpc.write(&[]);
    assert!(output.bytes.is_empty());
    assert!(matches!(output.target, Target::Stdout));
}

#[test]
fn named_applet_is_refused() {
    let call = AppletRpc { applet: Some("foo".to_string()), rpc: streams(), retries: 3 };
    match call.run::<()>() {
        AppletStep::Failed(error) => {
            assert!(matches!(error, AppletRpcError::AppletIdentifier));
            assert_eq!(error.message().unwrap(), "applet identifiers are not supported yet");
        }
        _ => panic!(),
    }
}

#[test]
fn first_response_is_written() {
    let replies = [Ok(None), Ok(None), Ok(Some(vec![7])), Ok(Some(vec![8]))];
    let (step, count) = drive(asked(3), &replies);
    assert_eq!(count, 3);
    match step {
        AppletStep::Write { rpc, response } => {
            assert_eq!(response, [7]);
            assert_eq!(rpc.output, Some(PathBuf::from("response.bin")));
        }
        _ => panic!(),
    }
}

#[test]
fn empty_response_is_a_response() {
    let (step, count) = drive(asked(2), &[Ok(Some(vec![]))]);
    assert_eq!(count, 1);
    assert!(matches!(step, AppletStep::Write { response, .. } if response.is_empty()));
}

#[test]
fn call_gives_up_after_retries() {
    let (step, count) = drive(asked(3), &[Ok(None), Ok(None), Ok(None), Ok(Some(vec![7]))]);
    assert_eq!(count, 3);
    match step {
        AppletStep::Failed(error) => {
            assert!(matches!(error, AppletRpcError::NoResponse { retries: 3 }));
            assert_eq!(error.message().unwrap(), "did not receive a response after 3 retries");
        }
        _ => panic!(),
    }
}

#[test]
fn no_retries_means_no_question() {
    let (step, count) = drive(asked(0), &[]);
    assert_eq!(count, 0);
    match step {
        AppletStep::Failed(error) => {
            assert_eq!(error.message().unwrap(), "did not receive a response after 0 retries");
        }
        _ => panic!(),
    }
}

#[test]
fn failures_end_the_call() {
    let (step, count) = drive(asked(3), &[Ok(None), Err("gone"), Ok(Some(vec![7]))]);
    assert_eq!(count, 2);
    match step {
        AppletStep::Failed(error) => {
            assert!(matches!(error, AppletRpcError::Io("gone")));
            assert!(error.message().is_none());
        }
        _ => panic!(),
    }
    let session = || AppletSession { rpc: files(), retries: 1, left: 1 };
    assert!(matches!(
        session().requested(Err("no file")),
        AppletStep::Failed(AppletRpcError::Io("no file"))
    ));
    assert!(matches!(
        session().sent(Err("unplugged")),
        AppletStep::Failed(AppletRpcError::Io("unplugged"))
    ));
}

#[test]
fn platform_is_called_with_the_request() {
    let call = match (PlatformRpc { rpc: files() }).run::<&'static str>() {
        PlatformStep::Read(call) => call,
        _ => panic!(),
    };
    let call = match call.requested(Ok::<_, &'static str>(vec![3])) {
        PlatformStep::Call { call, request } => {
            assert_eq!(request, [3]);
            call
        }
        _ => panic!(),
    };
    match call.answered(Ok::<_, &'static str>(vec![4, 5])) {
        PlatformStep::Write { rpc, response } => {
            assert_eq!(response, [4, 5]);
            assert_eq!(rpc.output, Some(PathBuf::from("response.bin")));
        }
        _ => panic!(),
    }
}

#[test]
fn platform_failures_end_the_call() {
    let call = || PlatformRpc { rpc: streams() };
    assert!(matches!(call().requested(Err("no file")), PlatformStep::Failed("no file")));
    assert!(matches!(call().answered(Err("unplugged")), PlatformStep::Failed("unplugged")));
}

#[test]
fn silence_and_absence_mean_reboot() {
    assert_eq!(PlatformReboot {}.received("e", Some(UsbError::Timeout)), Ok(()));
    assert_eq!(PlatformReboot {}.received("e", Some(UsbError::NoDevice)), Ok(()));
}

#[test]
fn other_errors_mean_no_reboot() {
    let others = [
        UsbError::Io,
        UsbError::InvalidParam,
        UsbError::Access,
        UsbError::NotFound,
        UsbError::Busy,
        UsbError::Overflow,
        UsbError::Pipe,
        UsbError::Interrupted,
        UsbError::NoMem,
        UsbError::NotSupported,
        UsbError::BadDescriptor,
        UsbError::Other,
    ];
    for usb in others {
        assert_eq!(PlatformReboot {}.received("e", Some(usb)), Err("e"));
    }
    assert_eq!(PlatformReboot {}.received("e", None), Err("e"));
}

#[test]
fn reboot_waits_once_it_was_sent() {
    assert!(matches!(PlatformReboot {}.run(Ok::<(), ()>(())), RebootStep::Receive(_)));
    assert!(matches!(PlatformReboot {}.run(Err("e")), RebootStep::Failed("e")));
}
