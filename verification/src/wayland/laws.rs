//! What a portal session does, said of what is asked for, the answers that the portal gives and
//! the calls it gets.
use crate::text;
use crate::wayland::input;
use crate::wayland::input::{Arg, Notification};
use crate::wayland::opening;
use crate::wayland::opening::{CallView, Interface, Method, Property};
use crate::wayland::portal;
use crate::wayland::portal::{PortalSession, PortalStream};
use crate::wayland::request;
use crate::wayland::session;
use crate::wayland::session::Probe;
use crate::wayland::token;
use crate::wayland::variant;
use crate::wayland::variant::Tree;
use vstd::prelude::*;

verus! {

/// A signed number is read as it stands, an unsigned one by its bits, either of them under any
/// variant that carries it, and nothing else is a number.
pub proof fn numbers_are_read(t: Tree, x: i32, y: u32)
    ensures
        portal::number_in(Tree::I32(x)) == Some(x),
        portal::number_in(Tree::U32(y)) matches Some(n) && n as u32 == y,
        y < 0x8000_0000 ==> (portal::number_in(Tree::U32(y)) matches Some(n) && n == y),
        portal::number_in(Tree::Nested(Box::new(t))) == portal::number_in(t),
        !(t is I32 || t is U32 || t is Nested) ==> portal::number_in(t) is None,
{
    assert(y < 0x8000_0000 ==> (y as i32) as u32 == y) by (bit_vector);
    if y >= 0x8000_0000 {
        let n = (y - 0x1_0000_0000) as i32;
        assert(n == y - 0x1_0000_0000);
        assert((n as u32) as int == (if n < 0 {
            n + 0x1_0000_0000
        } else {
            n as int
        })) by (bit_vector);
    }
}

/// A structure of exactly two numbers is a pair, whatever the numbers are, under any variant that
/// carries it; nothing else is one.
pub proof fn pairs_are_read(t: Tree, f: Seq<Tree>, a: i32, b: i32)
    ensures
        f.len() == 2 && portal::number_in(f[0]) == Some(a) && portal::number_in(f[1]) == Some(b)
            ==> portal::pair_in(Tree::Structure(f)) == Some((a, b)),
        f.len() != 2 ==> portal::pair_in(Tree::Structure(f)) is None,
        portal::number_in(f[0]) is None || portal::number_in(f[1]) is None ==> portal::pair_in(
            Tree::Structure(f),
        ) is None,
        portal::pair_in(Tree::Structure(seq![Tree::I32(a), Tree::I32(b)])) == Some((a, b)),
        portal::pair_in(Tree::Nested(Box::new(t))) == portal::pair_in(t),
        !(t is Structure || t is Nested) ==> portal::pair_in(t) is None,
{
    let two = seq![Tree::I32(a), Tree::I32(b)];
    assert(two[0] == Tree::I32(a) && two[1] == Tree::I32(b) && two.len() == 2);
}

/// Whether entry `i` is the one entry for `key`.
pub open spec fn only_entry(entries: Seq<(Tree, Tree)>, i: int, key: Seq<char>) -> bool {
    &&& 0 <= i < entries.len()
    &&& entries[i].0 == Tree::Str(key)
    &&& forall|j: int|
        0 <= j < entries.len() && j != i ==> (#[trigger] entries[j]).0 != Tree::Str(key)
}

/// Whether no entry is for `key`.
pub open spec fn no_entry(entries: Seq<(Tree, Tree)>, key: Seq<char>) -> bool {
    forall|j: int| 0 <= j < entries.len() ==> (#[trigger] entries[j]).0 != Tree::Str(key)
}

proof fn missing_property(entries: Seq<(Tree, Tree)>, key: Seq<char>)
    requires
        no_entry(entries, key),
    ensures
        portal::last_pair(entries, key) is None,
    decreases entries.len(),
{
    if entries.len() > 0 {
        assert(entries.last().0 != Tree::Str(key));
        missing_property(entries.drop_last(), key);
    }
}

/// The pair of two numbers, as it is and as a variant carries it.
pub open spec fn pair(a: i32, b: i32) -> Tree {
    Tree::Structure(seq![Tree::I32(a), Tree::I32(b)])
}

/// A stream has the node it starts with. Where its properties have one entry for the position, of
/// two numbers, that is its position, whatever the numbers are, the origin among them; likewise for
/// its size; and it has neither where there is no entry for it.
pub proof fn stream_has_the_geometry_it_was_sent_with(
    node: u32,
    entries: Seq<(Tree, Tree)>,
    more: Seq<Tree>,
    i: int,
    a: i32,
    b: i32,
)
    ensures
        ({
            let item = Tree::Structure(seq![Tree::U32(node), Tree::Dict(entries)] + more);
            let sent = |key: Seq<char>|
                only_entry(entries, i, key) && (entries[i].1 == pair(a, b) || entries[i].1
                    == Tree::Nested(Box::new(pair(a, b))));
            &&& portal::stream_in(item) matches Some(stream)
            &&& stream.node_id == node
            &&& sent("position"@) ==> stream.position == Some((a, b))
            &&& sent("size"@) ==> stream.size == Some((a, b))
            &&& no_entry(entries, "position"@) ==> stream.position is None
            &&& no_entry(entries, "size"@) ==> stream.size is None
        }),
{
    let f = seq![Tree::U32(node), Tree::Dict(entries)] + more;
    assert(f[0] == Tree::U32(node) && f[1] == Tree::Dict(entries) && f.len() >= 2);
    assert(portal::properties(f) == entries);
    pairs_are_read(pair(a, b), seq![], a, b);
    if only_entry(entries, i, "position"@) {
        portal::single_entry_is_read(entries, i, "position"@);
    }
    if only_entry(entries, i, "size"@) {
        portal::single_entry_is_read(entries, i, "size"@);
    }
    if no_entry(entries, "position"@) {
        missing_property(entries, "position"@);
    }
    if no_entry(entries, "size"@) {
        missing_property(entries, "size"@);
    }
}

/// An entry that comes last decides what it is about, and leaves the rest as it was.
pub proof fn last_entry_decides(
    node: u32,
    entries: Seq<(Tree, Tree)>,
    more: Seq<Tree>,
    key: Tree,
    value: Tree,
)
    ensures
        ({
            let dict = |e: Seq<(Tree, Tree)>|
                portal::stream_in(Tree::Structure(seq![Tree::U32(node), Tree::Dict(e)] + more));
            let before = dict(entries).unwrap();
            let after = dict(entries.push((key, value))).unwrap();
            &&& dict(entries) is Some && dict(entries.push((key, value))) is Some
            &&& after.node_id == node && before.node_id == node
            &&& key == Tree::Str("position"@) ==> after.position == portal::pair_in(value)
            &&& key == Tree::Str("size"@) ==> after.size == portal::pair_in(value)
            &&& key != Tree::Str("position"@) ==> after.position == before.position
            &&& key != Tree::Str("size"@) ==> after.size == before.size
        }),
{
    let f = seq![Tree::U32(node), Tree::Dict(entries)] + more;
    let longer = entries.push((key, value));
    let g = seq![Tree::U32(node), Tree::Dict(longer)] + more;
    assert(f[0] == Tree::U32(node) && f[1] == Tree::Dict(entries) && f.len() >= 2);
    assert(g[0] == Tree::U32(node) && g[1] == Tree::Dict(longer) && g.len() >= 2);
    assert(longer.drop_last() =~= entries);
    assert(longer.last() == (key, value));
}

/// A stream without properties has no geometry; what is no structure, or does not start with a
/// node, is no stream.
pub proof fn what_is_no_stream_is_none(f: Seq<Tree>, t: Tree)
    ensures
        !(t is Structure) ==> portal::stream_in(t) is None,
        f.len() == 0 || !(f[0] is U32) ==> portal::stream_in(Tree::Structure(f)) is None,
        f.len() > 0 && f[0] is U32 && (f.len() == 1 || !(f[1] is Dict)) ==> portal::stream_in(
            Tree::Structure(f),
        ) == Some(PortalStream { node_id: f[0]->U32_0, position: None, size: None }),
{
}

/// The streams of a list are those of its items, each in its place, and what is no list has none.
pub proof fn list_has_the_streams_of_its_items(items: Seq<Tree>, item: Tree, t: Tree)
    ensures
        portal::streams_in(Tree::Array(seq![])) == Seq::<PortalStream>::empty(),
        portal::streams_in(Tree::Array(items.push(item))) == match portal::stream_in(item) {
            Some(stream) => portal::streams_in(Tree::Array(items)).push(stream),
            None => portal::streams_in(Tree::Array(items)),
        },
        !(t is Array) ==> portal::streams_in(t) == Seq::<PortalStream>::empty(),
{
    let f = |i: Tree| portal::stream_in(i);
    let longer = items.push(item);
    longer.lemma_filter_map_take_succ(f, items.len() as int);
    assert(longer.take(items.len() as int) =~= items);
    assert(longer.take(longer.len() as int) =~= longer);
    assert(longer.filter_map(f) =~= match portal::stream_in(item) {
        Some(stream) => items.filter_map(f).push(stream),
        None => items.filter_map(f),
    });
    assert(Seq::<Tree>::empty().filter_map(f) =~= Seq::empty());
    assert(portal::streams_in(Tree::Array(seq![])) =~= Seq::<PortalStream>::empty());
}

proof fn colons_are_dropped(colons: nat, name: Seq<char>)
    requires
        name.len() > 0 ==> name[0] != ':',
    ensures
        portal::without_colons(Seq::new(colons, |i: int| ':') + name) == name,
    decreases colons,
{
    let s = Seq::new(colons, |i: int| ':') + name;
    if colons > 0 {
        assert(s[0] == ':');
        assert(s.drop_first() =~= Seq::new((colons - 1) as nat, |i: int| ':') + name);
        colons_are_dropped((colons - 1) as nat, name);
    } else {
        assert(s =~= name);
    }
}

/// The request object stands below the portal's own: behind a fixed start comes the sender's name,
/// character by character, without the colons it starts with and with an underscore for each dot,
/// then a slash, and then the token.
pub proof fn request_path_is_spelled_out(colons: nat, name: Seq<char>, token: Seq<char>)
    requires
        name.len() > 0 ==> name[0] != ':',
    ensures
        ({
            let path = portal::request_path_of(Seq::new(colons, |i: int| ':') + name, token);
            let start = "/org/freedesktop/portal/desktop/request/"@;
            let n = start.len() as int;
            &&& path.len() == n + name.len() + 1 + token.len()
            &&& path.take(n) == start
            &&& forall|i: int|
                0 <= i < name.len() ==> #[trigger] path[n + i] == if name[i] == '.' {
                    '_'
                } else {
                    name[i]
                }
            &&& path[n + name.len()] == '/'
            &&& path.skip(n + name.len() + 1) == token
        }),
{
    colons_are_dropped(colons, name);
    reveal_strlit("/org/freedesktop/portal/desktop/request/");
    reveal_strlit("/org/freedesktop/portal/desktop");
    reveal_strlit("/request/");
    reveal_strlit("/");
    let path = portal::request_path_of(Seq::new(colons, |i: int| ':') + name, token);
    let start = "/org/freedesktop/portal/desktop/request/"@;
    assert(path.take(start.len() as int) =~= start);
    assert(path.skip((start.len() + name.len() + 1) as int) =~= token);
}

/// The token of a session names its process, and that of a request goes on with an underscore and
/// the request's number.
pub proof fn tokens_are_spelled_out(pid: nat, serial: nat)
    ensures
        ({
            let session = portal::session_token_of(pid);
            let handle = portal::handle_token_of(pid, serial);
            let n = session.len() as int;
            &&& session.take(9) == "pixelflux"@ && text::read_digits(session.skip(9)) == pid
            &&& handle.take(n) == session
            &&& handle[n] == '_'
            &&& text::read_digits(handle.skip(n + 1)) == serial
            &&& handle.skip(n + 1) == text::decimal(serial) && session.skip(9) == text::decimal(pid)
        }),
{
    reveal_strlit("pixelflux");
    reveal_strlit("_");
    let session = portal::session_token_of(pid);
    let handle = portal::handle_token_of(pid, serial);
    let n = session.len() as int;
    assert(session.take(9) =~= "pixelflux"@);
    assert(session.skip(9) =~= text::decimal(pid));
    assert(handle.take(n) =~= session);
    assert(handle.skip(n + 1) =~= text::decimal(serial));
    text::decimal_reads_as_the_number(pid);
    text::decimal_reads_as_the_number(serial);
}

/// A mode that is not offered gives way to the embedded cursor where that is offered, else to the
/// hidden one, else to metadata, and to the embedded one where nothing is offered.
pub proof fn cursor_modes_give_way_in_order(available: u32, wanted: u32)
    ensures
        ({
            let mode = portal::cursor_mode_for(available, wanted);
            &&& available & wanted != 0 ==> mode == wanted
            &&& available & wanted == 0 && available & 2 != 0 ==> mode == 2
            &&& available & wanted == 0 && available & 2 == 0 && available & 1 != 0 ==> mode == 1
            &&& available & wanted == 0 && available & 3 == 0 && available & 4 != 0 ==> mode == 4
            &&& available & wanted == 0 && available & 7 == 0 ==> mode == 2
        }),
{
    assert(available & 3 == 0 ==> available & 2 == 0 && available & 1 == 0) by (bit_vector);
    assert(available & 7 == 0 ==> available & 2 == 0 && available & 1 == 0 && available & 4 == 0)
        by (bit_vector);
}

/// The handle of a session is the object path that the portal gives, or the text that it gives if
/// that is one; without either there is none.
pub proof fn session_handle_is_a_path(results: Map<Seq<char>, Tree>, p: Seq<char>, t: Tree)
    ensures
        ({
            let given = |v: Tree| portal::session_handle_in(results.insert("session_handle"@, v));
            &&& given(Tree::ObjectPath(p)) == Some(p)
            &&& variant::object_path(p) ==> given(Tree::Str(p)) == Some(p)
            &&& !variant::object_path(p) ==> given(Tree::Str(p)) is None
            &&& !(t is ObjectPath || t is Str) ==> given(t) is None
            &&& portal::session_handle_in(results.remove("session_handle"@)) is None
        }),
{
}

/// What starts with an object path and goes on with a slash and a name of its own is one again, as
/// a slash alone is; a slash at the end, or two together, is not to be had in one.
pub proof fn object_paths_grow_by_names(p: Seq<char>, name: Seq<char>)
    requires
        name.len() > 0,
        forall|i: int| 0 <= i < name.len() ==> variant::path_char(#[trigger] name[i]),
    ensures
        variant::object_path(seq!['/']),
        variant::object_path(seq!['/'] + name),
        variant::object_path(p) && p.len() > 1 ==> variant::object_path(p + seq!['/'] + name),
        p.len() > 0 ==> !variant::object_path(p + seq!['/']),
        !variant::object_path(name),
{
    assert(name[0] != '/');
    let longer = p + seq!['/'] + name;
    if variant::object_path(p) && p.len() > 1 {
        assert(p.last() != '/');
        assert forall|i: int| 0 <= i < longer.len() implies variant::path_char(#[trigger] longer[i])
            || longer[i] == '/' by {
            if i < p.len() {
                assert(longer[i] == p[i]);
            } else if i > p.len() {
                assert(longer[i] == name[i - p.len() - 1]);
            }
        }
        assert forall|i: int| 0 < i < longer.len() && #[trigger] longer[i] == '/' implies longer[i
            - 1] != '/' by {
            if i < p.len() {
                assert(longer[i] == p[i] && longer[i - 1] == p[i - 1]);
            } else if i == p.len() {
                assert(longer[i - 1] == p.last());
            } else {
                assert(longer[i] == name[i - p.len() - 1]);
            }
        }
        assert(longer.last() == name.last());
    }
    let root = seq!['/'] + name;
    assert forall|i: int| 0 <= i < root.len() implies variant::path_char(#[trigger] root[i])
        || root[i] == '/' by {
        if i > 0 {
            assert(root[i] == name[i - 1]);
        }
    }
    assert forall|i: int| 0 < i < root.len() && #[trigger] root[i] == '/' implies root[i - 1]
        != '/' by {
        assert(root[i] == name[i - 1]);
    }
    assert(root.last() == name.last());
    assert((p + seq!['/']).last() == '/');
}

/// What `Start` gives is taken as it is given: the streams of its list, the devices of its number,
/// the token of its text; and nothing where it gives nothing of the kind.
pub proof fn start_gives_what_it_holds(
    results: Map<Seq<char>, Tree>,
    list: Tree,
    devices: u32,
    token: Seq<char>,
    t: Tree,
)
    ensures
        portal::started_streams(results.insert("streams"@, list)) == portal::streams_in(list),
        portal::started_streams(results.remove("streams"@)).len() == 0,
        portal::started_devices(results.insert("devices"@, Tree::U32(devices))) == devices,
        !(t is U32) ==> portal::started_devices(results.insert("devices"@, t)) == 0,
        portal::started_devices(results.remove("devices"@)) == 0,
        portal::started_token(results.insert("restore_token"@, Tree::Str(token))) == Some(token),
        !(t is Str) ==> portal::started_token(results.insert("restore_token"@, t)) is None,
        portal::started_token(results.remove("restore_token"@)) is None,
{
}

/// The names and numbers that the portal knows.
pub proof fn portal_is_addressed_by_name(i: Interface, p: Property, m: Method)
    ensures
        i.name_of() == if i is ScreenCast {
            "org.freedesktop.portal.ScreenCast"@
        } else {
            "org.freedesktop.portal.RemoteDesktop"@
        },
        p is Version ==> p.name_of() == "version"@,
        p is AvailableCursorModes ==> p.name_of() == "AvailableCursorModes"@,
        p is AvailableDeviceTypes ==> p.name_of() == "AvailableDeviceTypes"@,
        m is CreateSession ==> m.name_of() == "CreateSession"@,
        m is SelectSources ==> m.name_of() == "SelectSources"@,
        m is SelectDevices ==> m.name_of() == "SelectDevices"@,
        m is Start ==> m.name_of() == "Start"@,
        portal::DESKTOP@ == "org.freedesktop.portal.Desktop"@,
        portal::REQUEST_IFACE@ == "org.freedesktop.portal.Request"@,
        portal::SESSION_IFACE@ == "org.freedesktop.portal.Session"@,
        portal::DEVICE_KEYBOARD == 1 && portal::DEVICE_POINTER == 2,
        portal::CURSOR_HIDDEN == 1 && portal::CURSOR_EMBEDDED == 2 && portal::CURSOR_METADATA == 4,
{
}

/// The keys that options may have.
pub open spec fn known_keys() -> Set<Seq<char>> {
    set!["types"@, "multiple"@, "cursor_mode"@, "persist_mode"@, "restore_token"@]
}

proof fn keys_differ()
    ensures
        "types"@ != "multiple"@ && "types"@ != "cursor_mode"@ && "types"@ != "persist_mode"@,
        "types"@ != "restore_token"@ && "multiple"@ != "cursor_mode"@,
        "multiple"@ != "persist_mode"@ && "multiple"@ != "restore_token"@,
        "cursor_mode"@ != "persist_mode"@ && "cursor_mode"@ != "restore_token"@,
        "persist_mode"@ != "restore_token"@,
{
    reveal_strlit("types");
    reveal_strlit("multiple");
    reveal_strlit("cursor_mode");
    reveal_strlit("persist_mode");
    reveal_strlit("restore_token");
    assert("types"@.len() == 5);
    assert("multiple"@.len() == 8);
    assert("cursor_mode"@.len() == 11);
    assert("persist_mode"@.len() == 12);
    assert("restore_token"@.len() == 13);
}

/// Whether `options` hold, of the keys that there are, what makes a grant last: exactly if it is to
/// be `kept`, and then with the token that was given, if one was.
pub open spec fn lasts(
    options: Map<Seq<char>, Tree>,
    kept: bool,
    given: Option<Seq<char>>,
) -> bool {
    &&& options.dom().subset_of(known_keys())
    &&& options.contains_key("persist_mode"@) <==> kept
    &&& kept ==> options["persist_mode"@] == Tree::U32(2)
    &&& options.contains_key("restore_token"@) <==> kept && given is Some
    &&& kept && given is Some ==> options["restore_token"@] == Tree::Str(given->0)
}

/// Whether `options` ask for every monitor as a stream of its own, with `mode` for a cursor where
/// the interface is of version two.
pub open spec fn every_monitor(options: Map<Seq<char>, Tree>, version: u32, mode: u32) -> bool {
    &&& options.contains_pair("types"@, Tree::U32(1))
    &&& options.contains_pair("multiple"@, Tree::Bool(true))
    &&& options.contains_key("cursor_mode"@) <==> version >= 2
    &&& version >= 2 ==> options["cursor_mode"@] == Tree::U32(mode)
}

/// How a plain screen cast is opened, answer by answer: no device is asked for, and no source
/// without a capture. The version that the portal answers decides which options it gets, and the
/// cursor modes that it answers decide which of them is asked for.
pub proof fn screen_cast_is_opened(
    pid: nat,
    capture: bool,
    cursor_mode: u32,
    given: Option<Seq<char>>,
    version: u32,
    created: Map<Seq<char>, Tree>,
    handle: Seq<char>,
    modes: u32,
    chosen: Map<Seq<char>, Tree>,
)
    requires
        created.contains_pair("session_handle"@, Tree::ObjectPath(handle)),
    ensures
        ({
            let sc = Interface::ScreenCast;
            let s0 = opening::asked(pid, capture, 0, cursor_mode, given);
            let s1 = s0.next(opening::ReplyView::Done)->Ok_0;
            let s2 = s1.next(opening::ReplyView::Done)->Ok_0;
            let s3 = s2.next(opening::ReplyView::Number(version))->Ok_0;
            let s4 = s3.next(opening::ReplyView::Results(created))->Ok_0;
            let s5 = s4.next(opening::ReplyView::Number(modes))->Ok_0;
            let s6 = if capture {
                s5.next(opening::ReplyView::Results(chosen))->Ok_0
            } else {
                s4
            };
            &&& s0.next(opening::ReplyView::Done) is Ok && s1.next(opening::ReplyView::Done) is Ok
            &&& s2.next(opening::ReplyView::Number(version)) is Ok
            &&& s3.next(opening::ReplyView::Results(created)) is Ok
            &&& s0.call() is Connect
            &&& s1.call() == CallView::Proxy(sc)
            &&& s2.call() == CallView::Read(sc, Property::Version)
            &&& s3.call() matches CallView::Request(i, m, on, o)
            &&& i == sc && m == Method::CreateSession && on is None
            &&& o == map!["session_handle_token"@ => Tree::Str("pixelflux"@ + text::decimal(pid))]
            &&& s4.session == handle
            &&& capture ==> {
                &&& s4.next(opening::ReplyView::Number(modes)) is Ok
                &&& s5.next(opening::ReplyView::Results(chosen)) is Ok
                &&& s4.call() == CallView::Read(sc, Property::AvailableCursorModes)
                &&& s5.call() matches CallView::Request(i, m, on, o)
                &&& i == sc && m == Method::SelectSources && on == Some(handle)
                &&& every_monitor(o, version, portal::cursor_mode_for(modes, cursor_mode))
                &&& lasts(o, version >= 4, given)
                &&& s5.cursor_mode == portal::cursor_mode_for(modes, cursor_mode)
            }
            &&& !capture ==> s6.cursor_mode == cursor_mode
            &&& s6.call() == CallView::Request(sc, Method::Start, Some(handle), Map::empty())
        }),
{
    keys_differ();
}

/// How a remote desktop is opened, answer by answer: every device that is wanted and that the
/// portal answers it has is asked for, and no other. The version of the remote desktop decides
/// whether the grant is kept, and the sources of a capture are chosen without that.
pub proof fn remote_desktop_is_opened(
    pid: nat,
    capture: bool,
    devices: u32,
    cursor_mode: u32,
    given: Option<Seq<char>>,
    sc_version: u32,
    rd_version: u32,
    created: Map<Seq<char>, Tree>,
    handle: Seq<char>,
    modes: u32,
    types: u32,
    chosen: Map<Seq<char>, Tree>,
)
    requires
        devices != 0,
        created.contains_pair("session_handle"@, Tree::ObjectPath(handle)),
    ensures
        ({
            let sc = Interface::ScreenCast;
            let rd = Interface::RemoteDesktop;
            let s0 = opening::asked(pid, capture, devices, cursor_mode, given);
            let s1 = s0.next(opening::ReplyView::Done)->Ok_0;
            let s2 = s1.next(opening::ReplyView::Done)->Ok_0;
            let s3 = s2.next(opening::ReplyView::Done)->Ok_0;
            let s4 = s3.next(opening::ReplyView::Number(sc_version))->Ok_0;
            let s5 = s4.next(opening::ReplyView::Number(rd_version))->Ok_0;
            let s6 = s5.next(opening::ReplyView::Results(created))->Ok_0;
            let s7 = s6.next(opening::ReplyView::Number(modes))->Ok_0;
            let s8 = if capture {
                s7.next(opening::ReplyView::Results(chosen))->Ok_0
            } else {
                s6
            };
            let s9 = s8.next(opening::ReplyView::Number(types))->Ok_0;
            let s10 = s9.next(opening::ReplyView::Results(chosen))->Ok_0;
            &&& s0.call() is Connect
            &&& s1.call() == CallView::Proxy(sc)
            &&& s2.call() == CallView::Proxy(rd)
            &&& s3.call() == CallView::Read(sc, Property::Version)
            &&& s4.call() == CallView::Read(rd, Property::Version)
            &&& s5.call() matches CallView::Request(i, m, on, o)
            &&& i == rd && m == Method::CreateSession && on is None
            &&& o == map!["session_handle_token"@ => Tree::Str("pixelflux"@ + text::decimal(pid))]
            &&& capture ==> {
                &&& s6.call() == CallView::Read(sc, Property::AvailableCursorModes)
                &&& s7.call() matches CallView::Request(i, m, on, o)
                &&& i == sc && m == Method::SelectSources && on == Some(handle)
                &&& every_monitor(o, sc_version, portal::cursor_mode_for(modes, cursor_mode))
                &&& lasts(o, false, given)
                &&& s7.cursor_mode == portal::cursor_mode_for(modes, cursor_mode)
            }
            &&& !capture ==> s10.cursor_mode == cursor_mode
            &&& s8.call() == CallView::Read(rd, Property::AvailableDeviceTypes)
            &&& s9.call() matches CallView::Request(i, m, on, o)
            &&& i == rd && m == Method::SelectDevices && on == Some(handle)
            &&& o.contains_pair("types"@, Tree::U32(devices & types))
            &&& !o.contains_key("multiple"@) && !o.contains_key("cursor_mode"@)
            &&& lasts(o, rd_version >= 2, given)
            &&& s10.call() == CallView::Request(rd, Method::Start, Some(handle), Map::empty())
        }),
{
    keys_differ();
}

/// Whatever state an opening is in when the portal answers which devices it has, what it asks for
/// next is exactly the devices that are both wanted and answered.
pub proof fn wanted_devices_that_are_there_are_asked_for(s: opening::State, n: u32, bit: u32)
    requires
        s.wf(),
        s.phase is DeviceTypes,
    ensures
        match s.next(opening::ReplyView::Number(n)) {
            Ok(t) => match t.call() {
                CallView::Request(i, m, on, options) => {
                    &&& i is RemoteDesktop && m is SelectDevices && on == Some(s.session)
                    &&& options.contains_key("types"@)
                    &&& options["types"@] matches Tree::U32(asked)
                    &&& asked == s.wanted & n
                    &&& (bit & asked != 0 ==> bit & s.wanted != 0 && bit & n != 0)
                    &&& bit & s.wanted == bit && bit & n == bit ==> bit & asked == bit
                },
                _ => false,
            },
            Err(_) => false,
        },
{
    keys_differ();
    let wanted = s.wanted;
    assert(bit & (wanted & n) != 0 ==> bit & wanted != 0 && bit & n != 0) by (bit_vector);
    assert(bit & wanted == bit && bit & n == bit ==> bit & (wanted & n) == bit) by (bit_vector);
}

/// A property that cannot be read is no obstacle: the cursor is then taken to be embedded at most,
/// and the devices to be a keyboard and a pointer. Whatever else fails ends the opening, and says
/// what failed.
pub proof fn failures_of_an_opening_are_told(s: opening::State, e: Seq<char>)
    requires
        s.wf(),
        !(s.phase is SaveToken),
        !(s.phase is Opened),
    ensures
        ({
            let end = s.next(opening::ReplyView::Failed(e));
            let told = |message: Seq<char>| end == Err::<opening::State, Seq<char>>(message);
            match s.phase {
                opening::Phase::Connect => told("session bus"@ + ": "@ + e),
                opening::Phase::ScreenCastVersion => told("no ScreenCast portal"@ + ": "@ + e),
                opening::Phase::RemoteDesktopVersion => told(
                    "no RemoteDesktop portal"@ + ": "@ + e,
                ),
                opening::Phase::CursorModes => end is Ok && end == s.next(
                    opening::ReplyView::Number(2),
                ),
                opening::Phase::DeviceTypes => end is Ok && end == s.next(
                    opening::ReplyView::Number(3),
                ),
                _ => told(e),
            }
        }),
{
    assert(1u32 | 2u32 == 3u32) by (bit_vector);
}

/// A session that cannot be named ends the opening.
pub proof fn session_needs_a_handle(s: opening::State, created: Map<Seq<char>, Tree>)
    requires
        s.wf(),
        s.phase is CreateSession,
    ensures
        match portal::session_handle_in(created) {
            Some(handle) => s.next(opening::ReplyView::Results(created)) matches Ok(t)
                && t.session == handle,
            None => s.next(opening::ReplyView::Results(created)) == Err::<
                opening::State,
                Seq<char>,
            >("CreateSession returned no session handle"@),
        },
{
}

/// How an opening ends with the answer to `Start`: a token is saved first; a capture without a
/// stream fails; all else is open, with the streams, the devices and the token of the answer.
pub proof fn opening_ends_with_the_start(s: opening::State, results: Map<Seq<char>, Tree>)
    requires
        s.wf(),
        s.phase is Start,
    ensures
        ({
            let streams = portal::started_streams(results);
            let end = s.next(opening::ReplyView::Results(results));
            let none = Err::<opening::State, Seq<char>>("the portal started no monitor stream"@);
            let holds = |t: opening::State|
                t.streams == streams && t.devices == portal::started_devices(results)
                    && t.restore_token == portal::started_token(results) && t.session == s.session
                    && t.cursor_mode == s.cursor_mode && t.remote == s.remote;
            match portal::started_token(results) {
                Some(token) => {
                    &&& end matches Ok(t)
                    &&& holds(t) && t.call() == CallView::Save(token)
                    &&& s.capture && streams.len() == 0 ==> t.next(opening::ReplyView::Done) == none
                    &&& !s.capture || streams.len() > 0 ==> (t.next(
                        opening::ReplyView::Done,
                    ) matches Ok(u) && u.phase is Opened && holds(u) && u.call() is Finished)
                },
                None => if s.capture && streams.len() == 0 {
                    end == none
                } else {
                    end matches Ok(t) && t.phase is Opened && holds(t) && t.call() is Finished
                },
            }
        }),
{
}

/// A response answers its request with what it holds exactly if its code is zero. One means that
/// the user cancelled, and any other code that the portal refused; the request says so under its
/// method's name.
pub proof fn responses_are_told_apart(
    s: request::State,
    code: u32,
    results: Map<Seq<char>, Tree>,
)
    requires
        s.phase is Await,
    ensures
        ({
            let end = s.next(request::ReplyView::Response(code, results));
            let told = |m: Seq<char>| end == Err::<request::ProgressView, Seq<char>>(s.method + m);
            &&& code == 0 ==> end == Ok::<request::ProgressView, Seq<char>>(
                request::ProgressView::Answered(results),
            )
            &&& code == 1 ==> told(": the user cancelled the portal dialog"@)
            &&& code > 1 ==> told(
                ": the portal refused (response "@ + text::decimal(code as nat) + ")"@,
            )
        }),
{
    if code > 1 {
        assert(s.method + ": the portal refused (response "@ + text::decimal(code as nat) + ")"@
            =~= s.method + (": the portal refused (response "@ + text::decimal(code as nat)
            + ")"@));
    }
}

/// Whatever fails ends a request: a subscription with what the bus says, the call and the response
/// under the method's name.
pub proof fn failures_of_a_request_are_told(s: request::State, e: Seq<char>)
    ensures
        ({
            let end = s.next(request::ReplyView::Failed(e));
            let told = |m: Seq<char>| end == Err::<request::ProgressView, Seq<char>>(m);
            match s.phase {
                request::PhaseView::Subscribe => told(e),
                request::PhaseView::Resubscribe(_) => told(e),
                request::PhaseView::Call => told(s.method + ": "@ + e),
                request::PhaseView::Await => told(s.method + ": "@ + e),
            }
        }),
        s.phase is Await ==> s.next(request::ReplyView::Closed) == Err::<
            request::ProgressView,
            Seq<char>,
        >(s.method + ": the request closed without a response"@),
{
}

/// A request starts with the options it was given and its handle token among them, and expects its
/// answer on the object that the token names.
pub proof fn request_starts_with_its_token(
    method: Seq<char>,
    options: Map<Seq<char>, Tree>,
    pid: nat,
    serial: nat,
    sender: Seq<char>,
    key: Seq<char>,
)
    ensures
        ({
            let s = request::asked(method, options, pid, serial, sender);
            let token = portal::handle_token_of(pid, serial);
            &&& s.method == method && s.phase is Subscribe
            &&& s.path == portal::request_path_of(sender, token)
            &&& s.options.contains_pair("handle_token"@, Tree::Str(token))
            &&& key != "handle_token"@ ==> s.options.contains_key(key) == options.contains_key(key)
            &&& key != "handle_token"@ && options.contains_key(key) ==> s.options[key]
                == options[key]
        }),
{
}

/// A path below a directory is the directory, a slash unless it ends with one or is empty, and the
/// rest.
pub proof fn paths_are_joined_by_one_slash(base: Seq<u8>, rel: Seq<char>)
    ensures
        ({
            let path = token::below(base, rel);
            let tail = vstd::utf8::encode_utf8(rel);
            &&& base.is_prefix_of(path)
            &&& path.skip(path.len() - tail.len()) == tail
            &&& base.len() == 0 || base.last() == 47 ==> path.len() == base.len() + tail.len()
            &&& base.len() > 0 && base.last() != 47 ==> path.len() == base.len() + 1 + tail.len()
                && path[base.len() as int] == 47
        }),
{
    let path = token::below(base, rel);
    let tail = vstd::utf8::encode_utf8(rel);
    assert(path.skip(path.len() - tail.len()) =~= tail);
}

/// The token's file stands below the state directory that is named, or below the one of the home
/// directory where none is named or an empty one; without either there is no such file.
pub proof fn token_file_is_in_the_state_directory(xdg: Option<Seq<u8>>, home: Option<Seq<u8>>)
    ensures
        ({
            let file = |dir: Seq<u8>| Some(token::below(dir, "pixelflux/portal-restore-token"@));
            let named = xdg is Some && xdg->0.len() > 0;
            &&& named ==> token::token_file(xdg, home) == file(xdg->0)
            &&& !named && home is Some ==> token::token_file(xdg, home) == file(
                token::below(home->0, ".local/state"@),
            )
            &&& !named && home is None ==> token::token_file(xdg, home) is None
        }),
{
}

/// The token is what stands in its file between the white space round it; a file of white space
/// alone holds none.
pub proof fn token_is_what_stands_between(before: Seq<char>, token: Seq<char>, after: Seq<char>)
    requires
        text::blank(before),
        text::blank(after),
        token.len() > 0 ==> !text::white_space(token[0]) && !text::white_space(token.last()),
    ensures
        token::token_in(before + token + after) == if token.len() > 0 {
            Some(token)
        } else {
            None
        },
{
    text::only_white_space_is_trimmed(before, token, after);
}

/// A session notifies exactly if it drives input, on itself, with nothing left out or added.
pub proof fn input_is_notified_if_it_is_driven(
    s: PortalSession,
    sent: Option<Notification>,
    method: Seq<char>,
    options: Map<Seq<char>, Tree>,
    args: Seq<Arg>,
)
    requires
        s.notifies(sent, method, options, args),
    ensures
        sent is Some <==> s.remote,
        sent matches Some(n) ==> n.method@ == method && n.session@ == s.session@ && n.options@
            == options && n.args@ == args,
        input::state_of(true) == 1,
        input::state_of(false) == 0,
{
}

/// A portal is there exactly if the bus is, its interface is, and its version can be read.
pub proof fn portal_is_there_if_nothing_fails(
    a: opening::ReplyView,
    b: opening::ReplyView,
    c: opening::ReplyView,
)
    requires
        a is Done || a is Failed,
        b is Done || b is Failed,
        c is Number || c is Failed,
    ensures
        ({
            let p0 = Probe { phase: session::ProbePhase::Connect };
            let p1 = p0.next(a);
            let p2 = p1->Going_0.next(b);
            let p3 = p2->Going_0.next(c);
            &&& p0.due() is Connect
            &&& a is Failed ==> p1 == session::ProbeProgress::Answer(false)
            &&& a is Done ==> {
                &&& p1 is Going && p1->Going_0.due() == CallView::Proxy(Interface::ScreenCast)
                &&& b is Failed ==> p2 == session::ProbeProgress::Answer(false)
                &&& b is Done ==> {
                    &&& p2 is Going
                    &&& p2->Going_0.due() == CallView::Read(
                        Interface::ScreenCast,
                        Property::Version,
                    )
                    &&& p3 == session::ProbeProgress::Answer(c is Number)
                }
            }
        }),
{
}

} // verus!
