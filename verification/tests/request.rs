use pixelflux::wayland::portal::handle_token;
use pixelflux::wayland::request::{Progress, Reply, Request, Serials, Step};
use pixelflux::wayland::variant::{VarDict, Variant};

const PATH: &str = "/org/freedesktop/portal/desktop/request/1_42/pixelflux7_3";

fn begun() -> Request {
    let mut options = VarDict::new();
    options.insert("types", Variant::U32(1));
    let mut serials = Serials::new();
    serials.take();
    serials.take();
    Request::new("Start", options, 7, &mut serials, Some(":1.42")).unwrap()
}

fn going(r: Request, reply: Reply) -> Request {
    match r.reply(reply).unwrap() {
        Progress::Going(r) => r,
        Progress::Answered(_) => panic!("the request is answered"),
    }
}

fn error(r: Request, reply: Reply) -> String {
    match r.reply(reply) {
        Err(e) => e,
        Ok(_) => panic!("the request goes on"),
    }
}

fn subscribes(r: &Request, path: &str) -> bool {
    matches!(r.step(), Step::Subscribe(p) if p == path)
}

fn waiting() -> Request {
    going(going(begun(), Reply::Subscribed), Reply::Handle(PATH.to_string()))
}

#[test]
fn a_request_subscribes_calls_and_waits() {
    let r = begun();
    assert!(subscribes(&r, PATH));
    let r = going(r, Reply::Subscribed);
    match r.step() {
        Step::Call(options) => {
            assert_eq!(options.get("handle_token"), Some(&Variant::Str("pixelflux7_3".to_string())));
            assert_eq!(options.get("types"), Some(&Variant::U32(1)));
        }
        _ => panic!("no call is due"),
    }
    let r = going(r, Reply::Handle(PATH.to_string()));
    assert!(matches!(r.step(), Step::Await));
    let mut results = VarDict::new();
    results.insert("devices", Variant::U32(3));
    match r.reply(Reply::Response(0, results)).unwrap() {
        Progress::Answered(results) => assert_eq!(results.get("devices"), Some(&Variant::U32(3))),
        Progress::Going(_) => panic!("the request goes on"),
    }
}

#[test]
fn an_old_portal_is_followed_to_the_path_it_returned() {
    let r = going(begun(), Reply::Subscribed);
    let r = going(r, Reply::Handle("/elsewhere".to_string()));
    assert!(subscribes(&r, "/elsewhere"));
    let r = going(r, Reply::Subscribed);
    assert!(matches!(r.step(), Step::Await));
}

#[test]
fn each_failure_of_a_request_has_its_text() {
    let mut serials = Serials::new();
    let nameless = match Request::new("Start", VarDict::new(), 1, &mut serials, None) {
        Err(e) => e,
        Ok(_) => panic!("there is a request"),
    };
    assert_eq!(nameless, "bus connection has no unique name");
    assert_eq!(serials.take(), 2);
    let failed = || Reply::Failed("e".to_string());
    assert_eq!(error(begun(), failed()), "e");
    assert_eq!(error(going(begun(), Reply::Subscribed), failed()), "Start: e");
    let moved = going(going(begun(), Reply::Subscribed), Reply::Handle("/x".to_string()));
    assert_eq!(error(moved, failed()), "e");
    assert_eq!(error(waiting(), failed()), "Start: e");
    assert_eq!(error(waiting(), Reply::Closed), "Start: the request closed without a response");
}

#[test]
fn only_code_zero_is_success() {
    let cancelled = error(waiting(), Reply::Response(1, VarDict::new()));
    assert_eq!(cancelled, "Start: the user cancelled the portal dialog");
    let refused = error(waiting(), Reply::Response(2, VarDict::new()));
    assert_eq!(refused, "Start: the portal refused (response 2)");
    let refused = Request::judge("Start", 4_294_967_295, VarDict::new()).unwrap_err();
    assert_eq!(refused, "Start: the portal refused (response 4294967295)");
    assert!(Request::judge("Start", 0, VarDict::new()).is_ok());
}

#[test]
fn every_request_takes_a_number_of_its_own() {
    let mut serials = Serials::new();
    let mut paths: Vec<String> = Vec::new();
    for _ in 0..3 {
        let r = Request::new("Start", VarDict::new(), 7, &mut serials, Some(":1.42")).unwrap();
        match r.step() {
            Step::Subscribe(path) => paths.push(path.to_string()),
            _ => panic!("no subscription is due"),
        }
    }
    let expected: Vec<String> = (1..4)
        .map(|n| format!("/org/freedesktop/portal/desktop/request/1_42/{}", handle_token(7, n)))
        .collect();
    assert_eq!(paths, expected);
    assert_eq!(serials.take(), 4);
}
