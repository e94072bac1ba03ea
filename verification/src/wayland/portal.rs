//! What a portal session is made of: its names and numbers, the streams of a `Start` answer, the
//! request path of a call and the handle of the session.
use crate::text;
use crate::wayland::variant;
use crate::wayland::variant::{Tree, VarDict, Variant};
use vstd::prelude::*;
use vstd::string::StringExecFns;

verus! {

pub const DESKTOP: &'static str = "org.freedesktop.portal.Desktop";

pub const DESKTOP_PATH: &'static str = "/org/freedesktop/portal/desktop";

pub const REQUEST_IFACE: &'static str = "org.freedesktop.portal.Request";

pub const SESSION_IFACE: &'static str = "org.freedesktop.portal.Session";

pub const SCREENCAST_IFACE: &'static str = "org.freedesktop.portal.ScreenCast";

pub const REMOTE_DESKTOP_IFACE: &'static str = "org.freedesktop.portal.RemoteDesktop";

pub const DEVICE_KEYBOARD: u32 = 1;

pub const DEVICE_POINTER: u32 = 2;

pub const CURSOR_HIDDEN: u32 = 1;

pub const CURSOR_EMBEDDED: u32 = 2;

pub const CURSOR_METADATA: u32 = 4;

pub const SOURCE_MONITOR: u32 = 1;

pub const PERSIST_UNTIL_REVOKED: u32 = 2;

/// One monitor stream the portal started: its PipeWire node and, where the backend says,
/// its logical position and size in the compositor's coordinate space.
#[derive(Clone, Debug, PartialEq, Eq)]
pub struct PortalStream {
    pub node_id: u32,
    pub position: Option<(i32, i32)>,
    pub size: Option<(i32, i32)>,
}

/// The 32 bits of `x` read as a signed number.
pub open spec fn signed(x: u32) -> i32 {
    if x < 0x8000_0000 {
        x as i32
    } else {
        (x - 0x1_0000_0000) as i32
    }
}

/// The 32-bit number in `t`, signed or not, under any depth of variants.
pub open spec fn number_in(t: Tree) -> Option<i32>
    decreases t,
{
    match t {
        Tree::I32(x) => Some(x),
        Tree::U32(x) => Some(signed(x)),
        Tree::Nested(inner) => number_in(*inner),
        _ => None,
    }
}

/// The pair of numbers in `t`: a structure of exactly two, under any depth of variants.
pub open spec fn pair_in(t: Tree) -> Option<(i32, i32)>
    decreases t,
{
    match t {
        Tree::Structure(f) => match (number_in(f[0]), number_in(f[1])) {
            (Some(a), Some(b)) if f.len() == 2 => Some((a, b)),
            _ => None,
        },
        Tree::Nested(inner) => pair_in(*inner),
        _ => None,
    }
}

/// The pair that the last entry for `key` holds.
pub open spec fn last_pair(entries: Seq<(Tree, Tree)>, key: Seq<char>) -> Option<(i32, i32)>
    decreases entries.len(),
{
    if entries.len() == 0 {
        None
    } else if entries.last().0 == Tree::Str(key) {
        pair_in(entries.last().1)
    } else {
        last_pair(entries.drop_last(), key)
    }
}

/// The properties of a stream: the entries of the dictionary in its second field, if that is one.
pub open spec fn properties(fields: Seq<Tree>) -> Seq<(Tree, Tree)> {
    if fields.len() > 1 {
        match fields[1] {
            Tree::Dict(entries) => entries,
            _ => seq![],
        }
    } else {
        seq![]
    }
}

/// The stream that `item` describes: a structure that starts with the node, the geometry in its
/// properties.
pub open spec fn stream_in(item: Tree) -> Option<PortalStream> {
    match item {
        Tree::Structure(f) => if f.len() > 0 {
            match f[0] {
                Tree::U32(node_id) => Some(
                    PortalStream {
                        node_id,
                        position: last_pair(properties(f), "position"@),
                        size: last_pair(properties(f), "size"@),
                    },
                ),
                _ => None,
            }
        } else {
            None
        },
        _ => None,
    }
}

/// The streams of an `a(ua{sv})` list, in its order; what is no stream is left out.
pub open spec fn streams_in(t: Tree) -> Seq<PortalStream> {
    match t {
        Tree::Array(items) => items.filter_map(|item: Tree| stream_in(item)),
        _ => seq![],
    }
}

/// The 32-bit number in `v`, signed or not, under any depth of variants.
pub fn value_i32(v: &Variant) -> (n: Option<i32>)
    ensures
        n == number_in(v.tree()),
    decreases v,
{
    match v {
        Variant::I32(x) => Some(*x),
        Variant::U32(x) => {
            let bits: u32 = *x;
            assert(bits >= 0x8000_0000 ==> (bits as i32) == bits - 0x1_0000_0000) by (bit_vector);
            Some(bits as i32)
        },
        Variant::Nested(inner) => value_i32(inner),
        _ => None,
    }
}

/// The pair of numbers in `v`: a structure of exactly two, under any depth of variants.
pub fn value_pair(v: &Variant) -> (pair: Option<(i32, i32)>)
    ensures
        pair == pair_in(v.tree()),
    decreases v,
{
    match v {
        Variant::Structure(fields) => if fields.len() == 2 {
            match (value_i32(&fields[0]), value_i32(&fields[1])) {
                (Some(a), Some(b)) => Some((a, b)),
                _ => None,
            }
        } else {
            None
        },
        Variant::Nested(inner) => value_pair(inner),
        _ => None,
    }
}

/// Whether `v` is the text `key`.
fn is_key(v: &Variant, key: &str) -> (is: bool)
    ensures
        is == (v.tree() == Tree::Str(key@)),
{
    match v {
        Variant::Str(s) => text::same_text(s.as_str(), key),
        _ => false,
    }
}

/// The stream that `item` describes, if it describes one.
pub fn parse_stream(item: &Variant) -> (stream: Option<PortalStream>)
    ensures
        stream == stream_in(item.tree()),
{
    proof {
        reveal_with_fuel(Variant::tree, 2);
    }
    let fields: &Vec<Variant> = match item {
        Variant::Structure(fields) => fields,
        _ => {
            return None;
        },
    };
    if fields.len() == 0 {
        return None;
    }
    let node_id: u32 = match &fields[0] {
        Variant::U32(node_id) => *node_id,
        _ => {
            return None;
        },
    };
    let mut stream = PortalStream { node_id, position: None, size: None };
    let ghost tree = item.tree()->Structure_0;
    if fields.len() > 1 {
        if let Variant::Dict(entries) = &fields[1] {
            let ghost props = properties(tree);
            assert(props.len() == entries@.len());
            assert(props.take(0) =~= seq![]);
            let mut i: usize = 0;
            while i < entries.len()
                invariant
                    i <= entries@.len() == props.len(),
                    forall|j: int|
                        0 <= j < props.len() ==> #[trigger] props[j] == (
                            entries@[j].0.tree(),
                            entries@[j].1.tree(),
                        ),
                    stream.node_id == node_id,
                    stream.position == last_pair(props.take(i as int), "position"@),
                    stream.size == last_pair(props.take(i as int), "size"@),
                decreases entries@.len() - i,
            {
                proof {
                    reveal_strlit("position");
                    reveal_strlit("size");
                    assert("position"@[0] != "size"@[0]);
                    assert(props.take(i + 1).drop_last() =~= props.take(i as int));
                    assert(props.take(i + 1).last() == props[i as int]);
                }
                if is_key(&entries[i].0, "position") {
                    stream.position = value_pair(&entries[i].1);
                } else if is_key(&entries[i].0, "size") {
                    stream.size = value_pair(&entries[i].1);
                }
                i = i + 1;
            }
            assert(props.take(props.len() as int) =~= props);
        }
    }
    Some(stream)
}

/// The streams of an `a(ua{sv})` list, in its order; what is no stream is left out.
pub fn list_streams(v: &Variant) -> (out: Vec<PortalStream>)
    ensures
        out@ == streams_in(v.tree()),
{
    let mut out: Vec<PortalStream> = Vec::new();
    if let Variant::Array(items) = v {
        let ghost trees = v.tree()->Array_0;
        let ghost f = |item: Tree| stream_in(item);
        assert(trees.take(0).filter_map(f) =~= seq![]);
        let mut i: usize = 0;
        while i < items.len()
            invariant
                i <= items@.len() == trees.len(),
                forall|j: int| 0 <= j < trees.len() ==> #[trigger] trees[j] == items@[j].tree(),
                f == (|item: Tree| stream_in(item)),
                out@ == trees.take(i as int).filter_map(f),
            decreases items@.len() - i,
        {
            proof {
                trees.lemma_filter_map_take_succ(f, i as int);
            }
            if let Some(stream) = parse_stream(&items[i]) {
                out.push(stream);
            }
            i = i + 1;
            assert(out@ =~= trees.take(i as int).filter_map(f));
        }
        assert(trees.take(trees.len() as int) =~= trees);
    }
    out
}

/// The `a(ua{sv})` stream list of a `Start` response.
pub fn parse_streams(v: &zbus::zvariant::Value<'_>) -> (out: Vec<PortalStream>)
    ensures
        out@ == streams_in(variant::value_tree(*v)),
{
    list_streams(&variant::read_value(v))
}

/// `s` without the colons at its start.
pub open spec fn without_colons(s: Seq<char>) -> Seq<char>
    decreases s.len(),
{
    if s.len() > 0 && s[0] == ':' {
        without_colons(s.drop_first())
    } else {
        s
    }
}

/// `s` with an underscore for every dot.
pub open spec fn underscored(s: Seq<char>) -> Seq<char> {
    s.map_values(
        |c: char|
            if c == '.' {
                '_'
            } else {
                c
            },
    )
}

/// The request object the portal answers a call from `sender` with `token` on.
pub open spec fn request_path_of(sender: Seq<char>, token: Seq<char>) -> Seq<char> {
    DESKTOP_PATH@ + "/request/"@ + underscored(without_colons(sender)) + "/"@ + token
}

/// The request object the portal answers a call from `sender` with `token` on.
pub fn request_path(sender: &str, token: &str) -> (path: String)
    ensures
        path@ == request_path_of(sender@, token@),
{
    let mut path: String = DESKTOP_PATH.to_owned();
    path.append("/request/");
    let chars: Vec<char> = text::characters(sender);
    let n: usize = chars.len();
    let mut from: usize = 0;
    assert(chars@.skip(0) =~= sender@);
    while from < n && chars[from] == ':'
        invariant
            from <= n == chars@.len(),
            without_colons(chars@.skip(from as int)) == without_colons(sender@),
        decreases n - from,
    {
        assert(chars@.skip(from as int).drop_first() =~= chars@.skip(from + 1));
        from = from + 1;
    }
    let ghost name = chars@.skip(from as int);
    let ghost head = path@;
    assert(without_colons(sender@) == name);
    let mut i: usize = from;
    assert(path@ =~= head + underscored(name.take(0)));
    while i < n
        invariant
            from <= i <= n == chars@.len(),
            name == chars@.skip(from as int),
            path@ == head + underscored(name.take(i - from)),
        decreases n - i,
    {
        let c: char = chars[i];
        if c == '.' {
            path.push('_');
        } else {
            path.push(c);
        }
        i = i + 1;
        assert(path@ =~= head + underscored(name.take(i - from)));
    }
    assert(name.take(n - from) =~= name);
    path.append("/");
    path.append(token);
    path
}

/// The handle token of the `serial`-th request of the process `pid`.
pub open spec fn handle_token_of(pid: nat, serial: nat) -> Seq<char> {
    "pixelflux"@ + text::decimal(pid) + "_"@ + text::decimal(serial)
}

/// The handle token of the `serial`-th request of the process `pid`.
pub fn handle_token(pid: u32, serial: u32) -> (token: String)
    ensures
        token@ == handle_token_of(pid as nat, serial as nat),
{
    let mut token: String = "pixelflux".to_owned();
    text::push_decimal(&mut token, pid as u64);
    token.append("_");
    text::push_decimal(&mut token, serial as u64);
    token
}

/// The token that names the session of the process `pid`.
pub open spec fn session_token_of(pid: nat) -> Seq<char> {
    "pixelflux"@ + text::decimal(pid)
}

/// The token that names the session of the process `pid`.
pub fn session_token(pid: u32) -> (token: String)
    ensures
        token@ == session_token_of(pid as nat),
{
    let mut token: String = "pixelflux".to_owned();
    text::push_decimal(&mut token, pid as u64);
    token
}

/// The cursor mode to ask for: `wanted` where the portal offers it, else the first it offers of
/// embedded, hidden and metadata, else embedded.
pub open spec fn cursor_mode_for(available: u32, wanted: u32) -> u32 {
    if available & wanted != 0 {
        wanted
    } else if available & CURSOR_EMBEDDED != 0 {
        CURSOR_EMBEDDED
    } else if available & CURSOR_HIDDEN != 0 {
        CURSOR_HIDDEN
    } else if available & CURSOR_METADATA != 0 {
        CURSOR_METADATA
    } else {
        CURSOR_EMBEDDED
    }
}

/// The cursor mode to ask a portal for that offers the modes `available`.
pub fn choose_cursor_mode(available: u32, wanted: u32) -> (mode: u32)
    ensures
        mode == cursor_mode_for(available, wanted),
{
    if available & wanted != 0 {
        wanted
    } else if available & CURSOR_EMBEDDED != 0 {
        CURSOR_EMBEDDED
    } else if available & CURSOR_HIDDEN != 0 {
        CURSOR_HIDDEN
    } else if available & CURSOR_METADATA != 0 {
        CURSOR_METADATA
    } else {
        CURSOR_EMBEDDED
    }
}

/// The session handle in the results of `CreateSession`: an object path, or a text that is one.
pub open spec fn session_handle_in(results: Map<Seq<char>, Tree>) -> Option<Seq<char>> {
    if results.contains_key("session_handle"@) {
        match results["session_handle"@] {
            Tree::Str(s) => if variant::object_path(s) {
                Some(s)
            } else {
                None
            },
            Tree::ObjectPath(p) => Some(p),
            _ => None,
        }
    } else {
        None
    }
}

/// The session handle in the results of `CreateSession`.
pub fn session_handle(results: &VarDict) -> (handle: Result<String, String>)
    requires
        results.wf(),
    ensures
        match handle {
            Ok(h) => session_handle_in(results@) == Some(h@),
            Err(e) => session_handle_in(results@) is None && e@
                == "CreateSession returned no session handle"@,
        },
{
    let found: Option<String> = match results.get("session_handle") {
        Some(Variant::Str(s)) => variant::parse_object_path(s.as_str()),
        Some(Variant::ObjectPath(p)) => Some(p.clone()),
        _ => None,
    };
    match found {
        Some(h) => Ok(h),
        None => Err("CreateSession returned no session handle".to_owned()),
    }
}

/// The streams in the results of `Start`; none where the portal gave no list.
pub open spec fn started_streams(results: Map<Seq<char>, Tree>) -> Seq<PortalStream> {
    if results.contains_key("streams"@) {
        streams_in(results["streams"@])
    } else {
        seq![]
    }
}

/// The devices in the results of `Start`; none where the portal gave no number.
pub open spec fn started_devices(results: Map<Seq<char>, Tree>) -> u32 {
    if results.contains_key("devices"@) {
        match results["devices"@] {
            Tree::U32(d) => d,
            _ => 0,
        }
    } else {
        0
    }
}

/// The restore token in the results of `Start`.
pub open spec fn started_token(results: Map<Seq<char>, Tree>) -> Option<Seq<char>> {
    if results.contains_key("restore_token"@) {
        match results["restore_token"@] {
            Tree::Str(t) => Some(t),
            _ => None,
        }
    } else {
        None
    }
}

/// A portal session: whether it drives input, its handle, its streams, the devices it may drive,
/// and the token that restores it without a dialog.
#[derive(Debug)]
pub struct PortalSession {
    pub remote: bool,
    pub session: String,
    pub streams: Vec<PortalStream>,
    pub devices: u32,
    pub cursor_mode: u32,
    pub restore_token: Option<String>,
}

/// A handle token starts like a session token, holds nothing but what a path element may hold,
/// and has its underscore right behind the process.
proof fn handle_token_shape(pid: nat, serial: nat)
    ensures
        handle_token_of(pid, serial).len() > 0,
        forall|i: int|
            0 <= i < handle_token_of(pid, serial).len() ==> variant::path_char(
                #[trigger] handle_token_of(pid, serial)[i],
            ),
{
    reveal_strlit("pixelflux");
    reveal_strlit("_");
    text::decimal_is_digits(pid);
    text::decimal_is_digits(serial);
}

/// No two requests have the same handle token, within a process or across processes.
pub proof fn handle_tokens_are_distinct(pid: nat, serial: nat, other_pid: nat, other_serial: nat)
    requires
        handle_token_of(pid, serial) == handle_token_of(other_pid, other_serial),
    ensures
        pid == other_pid,
        serial == other_serial,
{
    reveal_strlit("pixelflux");
    reveal_strlit("_");
    let a = handle_token_of(pid, serial);
    let b = handle_token_of(other_pid, other_serial);
    let p = text::decimal(pid);
    let q = text::decimal(other_pid);
    let m = p.len() as int;
    let n = q.len() as int;
    text::decimal_is_digits(pid);
    text::decimal_is_digits(other_pid);
    assert(a[9 + m] == '_');
    assert(b[9 + n] == '_');
    if p.len() < q.len() {
        assert(b[9 + m] == q[m]);
        assert(text::is_digit(q[m]));
    }
    if q.len() < p.len() {
        assert(a[9 + n] == p[n]);
        assert(text::is_digit(p[n]));
    }
    assert(p =~= a.subrange(9, 9 + m));
    assert(q =~= b.subrange(9, 9 + n));
    text::decimal_is_injective(pid, other_pid);
    assert(text::decimal(serial) =~= a.skip(10 + m));
    assert(text::decimal(other_serial) =~= b.skip(10 + n));
    text::decimal_is_injective(serial, other_serial);
}

/// Two requests of one sender have the same request object only if they are the same request.
pub proof fn request_paths_are_distinct(
    sender: Seq<char>,
    pid: nat,
    serial: nat,
    other_pid: nat,
    other_serial: nat,
)
    requires
        request_path_of(sender, handle_token_of(pid, serial)) == request_path_of(
            sender,
            handle_token_of(other_pid, other_serial),
        ),
    ensures
        pid == other_pid,
        serial == other_serial,
{
    let head = DESKTOP_PATH@ + "/request/"@ + underscored(without_colons(sender)) + "/"@;
    let a = handle_token_of(pid, serial);
    let b = handle_token_of(other_pid, other_serial);
    assert((head + a).skip(head.len() as int) =~= a);
    assert((head + b).skip(head.len() as int) =~= b);
    handle_tokens_are_distinct(pid, serial, other_pid, other_serial);
}

/// The request path of a sender whose name holds letters, digits, underscores and dots behind
/// its colon is an object path.
pub proof fn request_path_is_object_path(sender: Seq<char>, pid: nat, serial: nat)
    requires
        without_colons(sender).len() > 0,
        forall|i: int|
            0 <= i < without_colons(sender).len() ==> variant::path_char(
                #[trigger] without_colons(sender)[i],
            ) || without_colons(sender)[i] == '.',
    ensures
        variant::object_path(request_path_of(sender, handle_token_of(pid, serial))),
{
    reveal_strlit("/org/freedesktop/portal/desktop");
    reveal_strlit("/request/");
    reveal_strlit("/");
    let token = handle_token_of(pid, serial);
    handle_token_shape(pid, serial);
    let name = underscored(without_colons(sender));
    assert forall|i: int| 0 <= i < name.len() implies variant::path_char(#[trigger] name[i]) by {
        let c = without_colons(sender)[i];
    }
    let path = request_path_of(sender, token);
    let root = DESKTOP_PATH@ + "/request/"@;
    assert(root.len() == 40);
    assert forall|i: int| 0 <= i < path.len() implies variant::path_char(#[trigger] path[i])
        || path[i] == '/' by {
        if i < 40 {
            assert(path[i] == root[i]);
        } else if i < 40 + name.len() {
            assert(path[i] == name[i - 40]);
        } else if i > 40 + name.len() {
            assert(path[i] == token[i - 41 - name.len()]);
        }
    }
    assert forall|i: int| 0 < i < path.len() && #[trigger] path[i] == '/' implies path[i - 1]
        != '/' by {
        if i < 40 {
            assert(path[i] == root[i] && path[i - 1] == root[i - 1]);
        } else if i < 40 + name.len() {
            assert(path[i] == name[i - 40]);
        } else if i == 40 + name.len() {
            assert(path[i - 1] == name[name.len() - 1]);
        } else {
            assert(path[i] == token[i - 41 - name.len()]);
        }
    }
    assert(path.last() == token.last());
}

/// The cursor mode asked for is one the portal offers, wherever it offers the wanted mode or any
/// of the three that there are; and it is the wanted one where that is offered.
pub proof fn cursor_mode_is_offered(available: u32, wanted: u32)
    ensures
        available & wanted != 0 ==> cursor_mode_for(available, wanted) == wanted,
        available & wanted != 0 || available & 7 != 0 ==> available & cursor_mode_for(
            available,
            wanted,
        ) != 0,
{
    assert(available & 7 != 0 ==> available & 2 != 0 || available & 1 != 0 || available & 4 != 0)
        by (bit_vector);
}

/// A list in two parts has the streams of the one and then those of the other.
pub proof fn streams_of_parts(a: Seq<Tree>, b: Seq<Tree>)
    ensures
        streams_in(Tree::Array(a + b)) == streams_in(Tree::Array(a)) + streams_in(Tree::Array(b)),
    decreases b.len(),
{
    let f = |item: Tree| stream_in(item);
    if b.len() == 0 {
        assert(a + b =~= a);
        assert(b.filter_map(f) =~= seq![]);
        assert(a.filter_map(f) + b.filter_map(f) =~= a.filter_map(f));
    } else {
        let c = b.drop_last();
        streams_of_parts(a, c);
        (a + b).lemma_filter_map_take_succ(f, (a + b).len() - 1);
        b.lemma_filter_map_take_succ(f, b.len() - 1);
        assert((a + b).take((a + b).len() - 1) =~= a + c);
        assert((a + b).take((a + b).len() as int) =~= a + b);
        assert(b.take(b.len() - 1) =~= c);
        assert(b.take(b.len() as int) =~= b);
        assert((a + b).filter_map(f) =~= a.filter_map(f) + b.filter_map(f));
    }
}

/// A property that a dictionary gives once is the one that is read.
pub proof fn single_entry_is_read(entries: Seq<(Tree, Tree)>, i: int, key: Seq<char>)
    requires
        0 <= i < entries.len(),
        entries[i].0 == Tree::Str(key),
        forall|j: int| 0 <= j < entries.len() && j != i ==> (#[trigger] entries[j]).0 != Tree::Str(
            key,
        ),
    ensures
        last_pair(entries, key) == pair_in(entries[i].1),
    decreases entries.len(),
{
    if i < entries.len() - 1 {
        assert(entries.last().0 != Tree::Str(key));
        single_entry_is_read(entries.drop_last(), i, key);
    }
}

} // verus!
