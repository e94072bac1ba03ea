use pixelflux::wayland::input::{Arg, Double, Notification};
use pixelflux::wayland::opening::{Call, Interface, Method, Opening, Phase, Property, Reply};
use pixelflux::wayland::portal::{
    choose_cursor_mode, handle_token, list_streams, parse_streams, request_path, session_handle,
    session_token, value_i32, value_pair, PortalSession, PortalStream, CURSOR_EMBEDDED,
    CURSOR_HIDDEN, CURSOR_METADATA, DEVICE_KEYBOARD, DEVICE_POINTER,
};
use pixelflux::wayland::session::{Probe, ProbeProgress};
use pixelflux::wayland::variant::{opt_u32, VarDict, Variant};
use zbus::zvariant::Type as _;
use zbus::zvariant::{Array, Dict, ObjectPath, Structure, StructureBuilder, Value};

fn stream_value(node: u32, props: Vec<(&'static str, Value<'static>)>) -> Value<'static> {
    let mut dict = Dict::new(<&str>::SIGNATURE, Value::SIGNATURE);
    for (k, v) in props {
        dict.append(Value::from(k), Value::Value(Box::new(v))).unwrap();
    }
    let st: Structure = StructureBuilder::new().add_field(node).append_field(Value::Dict(dict)).build().unwrap();
    Value::Structure(st)
}

/// A `Start` response's stream list parses into node ids with the optional geometry, as
/// KDE (size only) and GNOME (position and size) send it.
#[test]
fn streams_parse_with_and_without_geometry() {
    let kde = stream_value(113, vec![("size", Value::from((1280i32, 720i32))), ("source_type", Value::U32(1))]);
    let gnome = stream_value(42, vec![("position", Value::from((1920i32, 0i32))), ("size", Value::from((1280i32, 720i32)))]);
    let mut arr = Array::new(&kde.value_signature().clone());
    arr.append(kde).unwrap();
    arr.append(gnome).unwrap();
    let streams = parse_streams(&Value::Array(arr));
    assert_eq!(
        streams,
        vec![
            PortalStream { node_id: 113, position: None, size: Some((1280, 720)) },
            PortalStream { node_id: 42, position: Some((1920, 0)), size: Some((1280, 720)) },
        ]
    );
}

/// The request path follows the handle-token convention: the sender's unique name with
/// its colon dropped and dots turned to underscores, then the token.
#[test]
fn request_path_follows_the_handle_token_convention() {
    assert_eq!(request_path(":1.42", "pixelflux7_3"), "/org/freedesktop/portal/desktop/request/1_42/pixelflux7_3");
}

#[test]
fn request_path_drops_only_leading_colons() {
    assert_eq!(request_path("::1:2.3", "t"), "/org/freedesktop/portal/desktop/request/1:2_3/t");
    assert_eq!(request_path("", ""), "/org/freedesktop/portal/desktop/request//");
}

#[test]
fn request_paths_of_two_requests_differ() {
    assert_eq!(handle_token(7, 3), "pixelflux7_3");
    assert_eq!(handle_token(0, 4_294_967_295), "pixelflux0_4294967295");
    assert_ne!(handle_token(1, 12), handle_token(11, 2));
    assert_ne!(request_path(":1.2", &handle_token(7, 3)), request_path(":1.2", &handle_token(7, 4)));
    assert_eq!(session_token(4711), "pixelflux4711");
}

#[test]
fn numbers_are_read_through_variants() {
    assert_eq!(value_i32(&Variant::I32(-5)), Some(-5));
    assert_eq!(value_i32(&Variant::U32(4_294_967_295)), Some(-1));
    assert_eq!(value_i32(&Variant::U32(2_147_483_648)), Some(i32::MIN));
    assert_eq!(value_i32(&Variant::U32(2_147_483_647)), Some(i32::MAX));
    assert_eq!(value_i32(&Variant::Nested(Box::new(Variant::Nested(Box::new(Variant::I32(9)))))), Some(9));
    assert_eq!(value_i32(&Variant::Bool(true)), None);
    assert_eq!(value_i32(&Variant::Str("3".to_string())), None);
}

#[test]
fn pairs_have_exactly_two_numbers() {
    let two = vec![Variant::I32(1), Variant::U32(2)];
    assert_eq!(value_pair(&Variant::Structure(two)), Some((1, 2)));
    let nested = Variant::Nested(Box::new(Variant::Structure(vec![Variant::I32(-1), Variant::I32(-2)])));
    assert_eq!(value_pair(&nested), Some((-1, -2)));
    assert_eq!(value_pair(&Variant::Structure(vec![Variant::I32(1)])), None);
    assert_eq!(value_pair(&Variant::Structure(vec![Variant::I32(1), Variant::I32(2), Variant::I32(3)])), None);
    assert_eq!(value_pair(&Variant::Structure(vec![Variant::I32(1), Variant::Other])), None);
    assert_eq!(value_pair(&Variant::Array(vec![Variant::I32(1), Variant::I32(2)])), None);
}

fn entry(key: &str, a: i32, b: i32) -> (Variant, Variant) {
    (Variant::Str(key.to_string()), Variant::Structure(vec![Variant::I32(a), Variant::I32(b)]))
}

#[test]
fn a_list_skips_what_is_no_stream() {
    let list = Variant::Array(vec![
        Variant::U32(1),
        Variant::Structure(vec![]),
        Variant::Structure(vec![Variant::I32(5)]),
        Variant::Structure(vec![Variant::U32(6)]),
        Variant::Structure(vec![Variant::U32(7), Variant::Dict(vec![(Variant::U32(1), Variant::U32(2))])]),
    ]);
    assert_eq!(
        list_streams(&list),
        vec![
            PortalStream { node_id: 6, position: None, size: None },
            PortalStream { node_id: 7, position: None, size: None },
        ]
    );
    assert!(list_streams(&Variant::U32(3)).is_empty());
    assert!(parse_streams(&Value::U32(3)).is_empty());
}

#[test]
fn the_last_entry_of_a_key_counts() {
    let entries = vec![
        entry("position", 1, 2),
        entry("size", 3, 4),
        entry("position", 5, 6),
        (Variant::Str("size".to_string()), Variant::Other),
    ];
    let list = Variant::Array(vec![Variant::Structure(vec![Variant::U32(8), Variant::Dict(entries)])]);
    assert_eq!(list_streams(&list), vec![PortalStream { node_id: 8, position: Some((5, 6)), size: None }]);
}

#[test]
fn streams_of_two_lists_are_those_of_each() {
    let one = || Variant::Structure(vec![Variant::U32(1), Variant::Dict(vec![entry("size", 3, 4)])]);
    let two = || Variant::Structure(vec![Variant::U32(2)]);
    let mut apart = list_streams(&Variant::Array(vec![one()]));
    apart.extend(list_streams(&Variant::Array(vec![Variant::Other, two()])));
    assert_eq!(list_streams(&Variant::Array(vec![one(), Variant::Other, two()])), apart);
}

#[test]
fn values_of_the_bus_are_copied() {
    let mut d = VarDict::new();
    d.insert_value("b", &Value::Bool(true));
    d.insert_value("i", &Value::I32(-3));
    d.insert_value("u", &Value::U32(3));
    d.insert_value("s", &Value::from("text"));
    d.insert_value("o", &Value::from(ObjectPath::try_from("/a/b").unwrap()));
    d.insert_value("v", &Value::Value(Box::new(Value::U32(9))));
    d.insert_value("p", &Value::from((1i32, 2i32)));
    d.insert_value("a", &Value::from(vec![4u32, 5u32]));
    d.insert_value("x", &Value::U64(1));
    assert_eq!(d.get("b"), Some(&Variant::Bool(true)));
    assert_eq!(d.get("i"), Some(&Variant::I32(-3)));
    assert_eq!(d.get("u"), Some(&Variant::U32(3)));
    assert_eq!(d.get("s"), Some(&Variant::Str("text".to_string())));
    assert_eq!(d.get("o"), Some(&Variant::ObjectPath("/a/b".to_string())));
    assert_eq!(d.get("v"), Some(&Variant::Nested(Box::new(Variant::U32(9)))));
    assert_eq!(d.get("p"), Some(&Variant::Structure(vec![Variant::I32(1), Variant::I32(2)])));
    assert_eq!(d.get("a"), Some(&Variant::Array(vec![Variant::U32(4), Variant::U32(5)])));
    assert_eq!(d.get("x"), Some(&Variant::Other));
    let mut inner = Dict::new(<&str>::SIGNATURE, Value::SIGNATURE);
    inner.append(Value::from("k"), Value::Value(Box::new(Value::U32(1)))).unwrap();
    d.insert_value("d", &Value::Dict(inner));
    assert_eq!(
        d.get("d"),
        Some(&Variant::Dict(vec![(Variant::Str("k".to_string()), Variant::Nested(Box::new(Variant::U32(1))))]))
    );
}

#[test]
fn a_dictionary_holds_each_key_once() {
    let mut d = VarDict::new();
    assert_eq!(d.get("types"), None);
    opt_u32(&mut d, "types", 1);
    d.insert("multiple", Variant::Bool(true));
    opt_u32(&mut d, "types", 2);
    assert_eq!(d.get("types"), Some(&Variant::U32(2)));
    assert_eq!(d.get("multiple"), Some(&Variant::Bool(true)));
    assert_eq!(d.entries().len(), 2);
}

#[test]
fn cursor_modes_are_downgraded_to_what_is_offered() {
    assert_eq!(choose_cursor_mode(7, CURSOR_METADATA), CURSOR_METADATA);
    assert_eq!(choose_cursor_mode(3, CURSOR_METADATA), CURSOR_EMBEDDED);
    assert_eq!(choose_cursor_mode(5, CURSOR_EMBEDDED), CURSOR_HIDDEN);
    assert_eq!(choose_cursor_mode(4, CURSOR_EMBEDDED), CURSOR_METADATA);
    assert_eq!(choose_cursor_mode(0, CURSOR_HIDDEN), CURSOR_EMBEDDED);
    assert_eq!(choose_cursor_mode(8, CURSOR_HIDDEN), CURSOR_EMBEDDED);
}

fn results(key: &str, value: Variant) -> VarDict {
    let mut d = VarDict::new();
    d.insert(key, value);
    d
}

#[test]
fn session_handles_are_object_paths() {
    let text = |s: &str| session_handle(&results("session_handle", Variant::Str(s.to_string())));
    assert_eq!(text("/org/session/1_42/x").unwrap(), "/org/session/1_42/x");
    assert_eq!(text("/").unwrap(), "/");
    let none = "CreateSession returned no session handle";
    for bad in ["", "a/b", "/a/", "//", "/a//b", "/a-b", "/\u{e4}"] {
        assert_eq!(text(bad).unwrap_err(), none);
    }
    let path = results("session_handle", Variant::ObjectPath("/s".to_string()));
    assert_eq!(session_handle(&path).unwrap(), "/s");
    assert_eq!(session_handle(&results("session_handle", Variant::U32(1))).unwrap_err(), none);
    assert_eq!(session_handle(&VarDict::new()).unwrap_err(), none);
}

/// The name of the call that is due.
fn due(o: &Opening) -> String {
    match o.call() {
        Call::Connect => "connect".to_string(),
        Call::Proxy(i) => format!("proxy {}", i.name()),
        Call::Read(i, p) => format!("read {} {}", i.name(), p.name()),
        Call::Request(i, m, s, _) => format!("{} {} {:?}", i.name(), m.name(), s),
        Call::Save(t) => format!("save {t}"),
        Call::Finished => "finished".to_string(),
    }
}

fn options(o: &Opening) -> VarDict {
    match o.call() {
        Call::Request(_, _, _, options) => options,
        _ => panic!("no request is due"),
    }
}

fn handle() -> Reply {
    Reply::Results(results("session_handle", Variant::ObjectPath("/s/1".to_string())))
}

fn one_stream() -> Variant {
    Variant::Array(vec![Variant::Structure(vec![Variant::U32(5)])])
}

const SC: &str = "org.freedesktop.portal.ScreenCast";
const RD: &str = "org.freedesktop.portal.RemoteDesktop";

#[test]
fn a_plain_capture_never_touches_the_remote_desktop() {
    let mut o = PortalSession::open(12, true, 0, CURSOR_METADATA, Some("old"));
    assert_eq!(due(&o), "connect");
    assert!(!o.begun());
    o.reply(Reply::Done).unwrap();
    assert_eq!(due(&o), format!("proxy {SC}"));
    o.reply(Reply::Done).unwrap();
    assert_eq!(due(&o), format!("read {SC} version"));
    assert!(!o.begun());
    o.reply(Reply::Number(4)).unwrap();
    assert_eq!(due(&o), format!("{SC} CreateSession None"));
    assert!(o.begun());
    assert_eq!(o.session().session, "/");
    assert_eq!(options(&o).get("session_handle_token"), Some(&Variant::Str("pixelflux12".to_string())));
    assert_eq!(options(&o).entries().len(), 1);
    o.reply(handle()).unwrap();
    assert_eq!(o.session().session, "/s/1");
    assert_eq!(due(&o), format!("read {SC} AvailableCursorModes"));
    o.reply(Reply::Number(3)).unwrap();
    assert_eq!(due(&o), format!("{SC} SelectSources Some(\"/s/1\")"));
    let sources = options(&o);
    assert_eq!(sources.get("types"), Some(&Variant::U32(1)));
    assert_eq!(sources.get("multiple"), Some(&Variant::Bool(true)));
    assert_eq!(sources.get("cursor_mode"), Some(&Variant::U32(CURSOR_EMBEDDED)));
    assert_eq!(sources.get("persist_mode"), Some(&Variant::U32(2)));
    assert_eq!(sources.get("restore_token"), Some(&Variant::Str("old".to_string())));
    assert_eq!(sources.entries().len(), 5);
    o.reply(Reply::Results(VarDict::new())).unwrap();
    assert_eq!(due(&o), format!("{SC} Start Some(\"/s/1\")"));
    assert_eq!(options(&o).entries().len(), 0);
    let mut started = results("streams", one_stream());
    started.insert("restore_token", Variant::Str("new".to_string()));
    o.reply(Reply::Results(started)).unwrap();
    assert_eq!(due(&o), "save new");
    o.reply(Reply::Done).unwrap();
    assert_eq!(due(&o), "finished");
    assert_eq!(o.phase(), Phase::Opened);
    let s = o.finish();
    assert!(!s.remote);
    assert_eq!(s.streams, vec![PortalStream { node_id: 5, position: None, size: None }]);
    assert_eq!(s.devices, 0);
    assert_eq!(s.cursor_mode, CURSOR_EMBEDDED);
    assert_eq!(s.restore_token, Some("new".to_string()));
}

#[test]
fn persistence_rides_the_choice_of_devices_on_a_remote_desktop() {
    let mut o = PortalSession::open(12, true, DEVICE_KEYBOARD | DEVICE_POINTER | 4, CURSOR_HIDDEN, Some("old"));
    let mut seen = Vec::new();
    o.reply(Reply::Done).unwrap();
    o.reply(Reply::Done).unwrap();
    seen.push(due(&o));
    o.reply(Reply::Done).unwrap();
    o.reply(Reply::Number(5)).unwrap();
    seen.push(due(&o));
    o.reply(Reply::Number(2)).unwrap();
    seen.push(due(&o));
    o.reply(handle()).unwrap();
    o.reply(Reply::Failed("no such property".to_string())).unwrap();
    let sources = options(&o);
    assert_eq!(sources.get("cursor_mode"), Some(&Variant::U32(CURSOR_EMBEDDED)));
    assert_eq!(sources.get("persist_mode"), None);
    assert_eq!(sources.get("restore_token"), None);
    o.reply(Reply::Results(VarDict::new())).unwrap();
    seen.push(due(&o));
    o.reply(Reply::Failed("no such property".to_string())).unwrap();
    seen.push(due(&o));
    let devices = options(&o);
    assert_eq!(devices.get("types"), Some(&Variant::U32(3)));
    assert_eq!(devices.get("persist_mode"), Some(&Variant::U32(2)));
    assert_eq!(devices.get("restore_token"), Some(&Variant::Str("old".to_string())));
    o.reply(Reply::Results(VarDict::new())).unwrap();
    seen.push(due(&o));
    let mut started = results("streams", one_stream());
    started.insert("devices", Variant::U32(3));
    o.reply(Reply::Results(started)).unwrap();
    seen.push(due(&o));
    assert_eq!(
        seen,
        vec![
            format!("proxy {RD}"),
            format!("read {RD} version"),
            format!("{RD} CreateSession None"),
            format!("read {RD} AvailableDeviceTypes"),
            format!("{RD} SelectDevices Some(\"/s/1\")"),
            format!("{RD} Start Some(\"/s/1\")"),
            "finished".to_string(),
        ]
    );
    let s = o.finish();
    assert!(s.remote);
    assert_eq!(s.devices, 3);
    assert_eq!(s.restore_token, None);
}

#[test]
fn old_portals_get_fewer_options() {
    let mut o = PortalSession::open(1, true, 0, CURSOR_EMBEDDED, Some("old"));
    o.reply(Reply::Done).unwrap();
    o.reply(Reply::Done).unwrap();
    o.reply(Reply::Number(1)).unwrap();
    o.reply(handle()).unwrap();
    o.reply(Reply::Number(2)).unwrap();
    assert_eq!(options(&o).entries().len(), 2);
    let mut o = PortalSession::open(1, false, DEVICE_POINTER, CURSOR_EMBEDDED, Some("old"));
    for _ in 0..3 {
        o.reply(Reply::Done).unwrap();
    }
    o.reply(Reply::Number(1)).unwrap();
    o.reply(Reply::Number(1)).unwrap();
    o.reply(handle()).unwrap();
    o.reply(Reply::Number(1)).unwrap();
    assert_eq!(options(&o).get("types"), Some(&Variant::U32(0)));
    assert_eq!(options(&o).entries().len(), 1);
}

fn failure(o: &mut Opening, e: &str) -> String {
    o.reply(Reply::Failed(e.to_string())).unwrap_err()
}

#[test]
fn each_failure_of_an_opening_has_its_text() {
    let mut o = PortalSession::open(1, true, DEVICE_POINTER, CURSOR_EMBEDDED, None);
    assert_eq!(failure(&mut o, "e"), "session bus: e");
    o.reply(Reply::Done).unwrap();
    assert_eq!(failure(&mut o, "e"), "e");
    o.reply(Reply::Done).unwrap();
    assert_eq!(failure(&mut o, "e"), "e");
    o.reply(Reply::Done).unwrap();
    assert_eq!(failure(&mut o, "e"), "no ScreenCast portal: e");
    o.reply(Reply::Number(4)).unwrap();
    assert_eq!(failure(&mut o, "e"), "no RemoteDesktop portal: e");
    o.reply(Reply::Number(2)).unwrap();
    assert_eq!(failure(&mut o, "CreateSession: e"), "CreateSession: e");
    let none = o.reply(Reply::Results(VarDict::new())).unwrap_err();
    assert_eq!(none, "CreateSession returned no session handle");
    o.reply(handle()).unwrap();
    o.reply(Reply::Number(2)).unwrap();
    assert_eq!(failure(&mut o, "SelectSources: e"), "SelectSources: e");
    o.reply(Reply::Results(VarDict::new())).unwrap();
    o.reply(Reply::Number(2)).unwrap();
    assert_eq!(failure(&mut o, "SelectDevices: e"), "SelectDevices: e");
    o.reply(Reply::Results(VarDict::new())).unwrap();
    assert_eq!(failure(&mut o, "Start: e"), "Start: e");
    let none = o.reply(Reply::Results(VarDict::new())).unwrap_err();
    assert_eq!(none, "the portal started no monitor stream");
}

#[test]
fn a_new_token_is_saved_before_a_missing_stream_is_found() {
    let mut o = PortalSession::open(1, true, 0, CURSOR_EMBEDDED, None);
    o.reply(Reply::Done).unwrap();
    o.reply(Reply::Done).unwrap();
    o.reply(Reply::Number(4)).unwrap();
    o.reply(handle()).unwrap();
    o.reply(Reply::Number(2)).unwrap();
    o.reply(Reply::Results(VarDict::new())).unwrap();
    o.reply(Reply::Results(results("restore_token", Variant::Str("t".to_string())))).unwrap();
    assert_eq!(due(&o), "save t");
    assert_eq!(o.reply(Reply::Done).unwrap_err(), "the portal started no monitor stream");
}

#[test]
fn input_alone_needs_no_stream() {
    let mut o = PortalSession::open(1, false, DEVICE_POINTER, CURSOR_EMBEDDED, None);
    for _ in 0..3 {
        o.reply(Reply::Done).unwrap();
    }
    o.reply(Reply::Number(4)).unwrap();
    o.reply(Reply::Number(2)).unwrap();
    o.reply(handle()).unwrap();
    assert_eq!(due(&o), format!("read {RD} AvailableDeviceTypes"));
    o.reply(Reply::Number(7)).unwrap();
    o.reply(Reply::Results(VarDict::new())).unwrap();
    o.reply(Reply::Results(VarDict::new())).unwrap();
    assert_eq!(o.phase(), Phase::Opened);
    assert!(o.session().streams.is_empty());
}

#[test]
fn names_on_the_bus() {
    assert_eq!(Interface::ScreenCast.name(), SC);
    assert_eq!(Interface::RemoteDesktop.name(), RD);
    assert_eq!(Property::AvailableDeviceTypes.name(), "AvailableDeviceTypes");
    assert_eq!(Method::Start.name(), "Start");
    assert_eq!(Method::Start.parent_window(), Some(""));
    assert_eq!(Method::CreateSession.parent_window(), None);
    assert_eq!(Method::SelectSources.parent_window(), None);
    assert_eq!(Method::SelectDevices.parent_window(), None);
}

fn session(remote: bool) -> PortalSession {
    PortalSession {
        remote,
        session: "/s/1".to_string(),
        streams: Vec::new(),
        devices: 3,
        cursor_mode: CURSOR_EMBEDDED,
        restore_token: None,
    }
}

fn double(x: f64) -> Double {
    Double { bits: x.to_bits() }
}

fn shown(n: Option<Notification>) -> (String, Vec<Arg>, usize) {
    let n = n.unwrap();
    assert_eq!(n.session, "/s/1");
    (n.method.to_string(), n.args, n.options.entries().len())
}

#[test]
fn input_is_notified_on_the_session() {
    let s = session(true);
    assert_eq!(
        shown(s.pointer_motion_abs(5, double(1.5), double(-2.0))),
        (
            "NotifyPointerMotionAbsolute".to_string(),
            vec![Arg::U32(5), Arg::F64(double(1.5)), Arg::F64(double(-2.0))],
            0
        )
    );
    assert_eq!(
        shown(s.pointer_motion(double(0.25), double(4.0))),
        ("NotifyPointerMotion".to_string(), vec![Arg::F64(double(0.25)), Arg::F64(double(4.0))], 0)
    );
    assert_eq!(
        shown(s.pointer_button(272, true)),
        ("NotifyPointerButton".to_string(), vec![Arg::I32(272), Arg::U32(1)], 0)
    );
    assert_eq!(
        shown(s.pointer_axis(double(1.0), double(2.0), false)),
        ("NotifyPointerAxis".to_string(), vec![Arg::F64(double(1.0)), Arg::F64(double(2.0))], 1)
    );
    let end = s.pointer_axis(double(0.0), double(0.0), true).unwrap();
    assert_eq!(end.options.get("finish"), Some(&Variant::Bool(true)));
    assert_eq!(
        shown(s.pointer_axis_discrete(1, -3)),
        ("NotifyPointerAxisDiscrete".to_string(), vec![Arg::U32(1), Arg::I32(-3)], 0)
    );
    assert_eq!(
        shown(s.keysym(65307, false)),
        ("NotifyKeyboardKeysym".to_string(), vec![Arg::I32(65307), Arg::U32(0)], 0)
    );
    assert_eq!(
        shown(s.keycode(30, true)),
        ("NotifyKeyboardKeycode".to_string(), vec![Arg::I32(30), Arg::U32(1)], 0)
    );
}

#[test]
fn a_session_without_input_notifies_nothing() {
    let s = session(false);
    assert!(s.pointer_motion_abs(5, double(1.0), double(2.0)).is_none());
    assert!(s.pointer_motion(double(1.0), double(2.0)).is_none());
    assert!(s.pointer_button(272, true).is_none());
    assert!(s.pointer_axis(double(1.0), double(2.0), true).is_none());
    assert!(s.pointer_axis_discrete(0, 1).is_none());
    assert!(s.keysym(1, true).is_none());
    assert!(s.keycode(1, true).is_none());
}

fn probing(p: Probe, reply: Reply) -> Probe {
    match p.reply(reply) {
        ProbeProgress::Going(p) => p,
        ProbeProgress::Answer(there) => panic!("answered {there}"),
    }
}

#[test]
fn a_portal_is_there_if_its_version_can_be_read() {
    let failed = || Reply::Failed("e".to_string());
    let p = PortalSession::available();
    assert!(matches!(p.call(), Call::Connect));
    assert_eq!(p.reply(failed()), ProbeProgress::Answer(false));
    let p = probing(p, Reply::Done);
    assert!(matches!(p.call(), Call::Proxy(Interface::ScreenCast)));
    assert_eq!(p.reply(failed()), ProbeProgress::Answer(false));
    let p = probing(p, Reply::Done);
    assert!(matches!(p.call(), Call::Read(Interface::ScreenCast, Property::Version)));
    assert_eq!(p.reply(failed()), ProbeProgress::Answer(false));
    assert_eq!(p.reply(Reply::Number(0)), ProbeProgress::Answer(true));
}

#[test]
fn a_session_is_asked_for_its_connection_and_closed() {
    let s = session(true);
    let call = s.open_pipewire_remote();
    assert_eq!((call.path.as_str(), call.interface), ("/org/freedesktop/portal/desktop", SC));
    assert_eq!((call.method, call.session.as_deref()), ("OpenPipeWireRemote", Some("/s/1")));
    assert_eq!(call.refusal("denied"), "OpenPipeWireRemote: denied");
    let call = s.close();
    assert_eq!((call.path.as_str(), call.interface), ("/s/1", "org.freedesktop.portal.Session"));
    assert_eq!((call.method, call.session), ("Close", None));
}
