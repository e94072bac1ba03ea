//! The vendor's libraries, and the device node they open.
//!
//! [`Vendor::load`] starts a [`Loading`], and [`available`] a [`Probe`]. As with the other steps,
//! the program does what the one says is due and hands it what came of that.
use crate::encoders::setup;
use crate::encoders::setup::Creation;
use crate::encoders::tegra;
use crate::encoders::tegra::{Call, Reply, ReplyView};
use vstd::prelude::*;
use vstd::string::StringExecFns;

verus! {

/// The device nodes of the encoder, in the order in which they are tried.
pub open spec fn node_name(i: usize) -> Seq<char> {
    if i == 0 {
        "/dev/v4l2-nvenc"@
    } else {
        "/dev/nvhost-msenc"@
    }
}

/// The device nodes of the encoder, in the order in which they are tried.
pub fn encoder_node(i: usize) -> (name: &'static str)
    requires
        i < 2,
    ensures
        name@ == node_name(i),
{
    if i == 0 {
        "/dev/v4l2-nvenc"
    } else {
        "/dev/nvhost-msenc"
    }
}

/// What is said where no node opened.
pub open spec fn no_node() -> Seq<char> {
    "no encoder node opened, tried [\"/dev/v4l2-nvenc\", \"/dev/nvhost-msenc\"]"@
}

/// What is said where no node opened.
pub fn none_opened() -> (message: String)
    ensures
        message@ == no_node(),
{
    "no encoder node opened, tried [\"/dev/v4l2-nvenc\", \"/dev/nvhost-msenc\"]".to_owned()
}

/// The two libraries.
pub open spec fn library_name(library: usize) -> Seq<char> {
    if library == 0 {
        "libnvv4l2.so"@
    } else {
        "libnvbuf_utils.so"@
    }
}

/// Where a library is looked for: under its plain name first, so that the loader's own search
/// applies, and again in the directory of images that do not put it on the default path.
pub open spec fn library_path(library: usize, again: bool) -> Seq<char> {
    if again {
        "/usr/lib/aarch64-linux-gnu/tegra/"@ + library_name(library)
    } else {
        library_name(library)
    }
}

/// The functions taken from the libraries, in the order in which they are looked up, each name
/// with the zero that ends it.
pub open spec fn symbol_name(i: usize) -> Seq<char> {
    if i == 0 {
        "v4l2_open\0"@
    } else if i == 1 {
        "v4l2_ioctl\0"@
    } else if i == 2 {
        "v4l2_close\0"@
    } else if i == 3 {
        "NvBufferCreateEx\0"@
    } else if i == 4 {
        "Raw2NvBuffer\0"@
    } else if i == 5 {
        "NvBufferTransform\0"@
    } else if i == 6 {
        "NvBufferMemSyncForDevice\0"@
    } else {
        "NvBufferDestroy\0"@
    }
}

/// The library that each function is taken from.
pub open spec fn symbol_library(i: usize) -> usize {
    if i < 3 {
        0
    } else {
        1
    }
}

/// The addresses of the functions taken from the vendor's libraries.
#[derive(Clone, Copy, Debug, PartialEq, Eq)]
pub struct Vendor {
    pub open: usize,
    pub ioctl: usize,
    pub close: usize,
    pub create: usize,
    pub raw2buf: usize,
    pub transform: usize,
    pub sync: usize,
    pub destroy: usize,
}

/// What a loading is waiting for.
#[derive(Clone, Copy, Debug, PartialEq, Eq)]
pub enum LoadPhase {
    Library { library: usize, again: bool },
    Symbol(usize),
}

/// The vendor's libraries on their way to being loaded.
#[derive(Clone, Copy, Debug, PartialEq)]
pub struct Loading {
    pub phase: LoadPhase,
    /// The addresses found so far.
    pub found: [usize; 8],
}

/// What a loading asks for.
pub enum LoadStep {
    /// Load the library at this path.
    Open(String),
    /// Find this symbol in this library.
    Find { library: usize, symbol: &'static str },
}

/// [`LoadStep`] as a mathematical value.
pub enum LoadStepView {
    Open(Seq<char>),
    Find { library: usize, symbol: Seq<char> },
}

/// What came of a step.
pub enum LoadReply {
    /// The library is loaded.
    Loaded,
    /// The symbol is at this address.
    Found(usize),
    /// The step failed.
    Failed(String),
}

/// [`LoadReply`] as a mathematical value.
pub enum LoadReplyView {
    Loaded,
    Found(usize),
    Failed(Seq<char>),
}

/// Where a loading stands after a step.
#[derive(Clone, Copy, Debug, PartialEq)]
pub enum LoadProgress {
    Going(Loading),
    Loaded(Vendor),
}

impl LoadStep {
    pub open spec fn view(&self) -> LoadStepView {
        match self {
            LoadStep::Open(path) => LoadStepView::Open(path@),
            LoadStep::Find { library, symbol } => LoadStepView::Find {
                library: *library,
                symbol: symbol@,
            },
        }
    }
}

impl LoadReply {
    pub open spec fn view(&self) -> LoadReplyView {
        match self {
            LoadReply::Loaded => LoadReplyView::Loaded,
            LoadReply::Found(address) => LoadReplyView::Found(*address),
            LoadReply::Failed(e) => LoadReplyView::Failed(e@),
        }
    }
}

/// Whether `reply` is one that the step of `phase` can have.
pub open spec fn load_fits(phase: LoadPhase, reply: LoadReplyView) -> bool {
    match phase {
        LoadPhase::Library { .. } => reply is Loaded || reply is Failed,
        LoadPhase::Symbol(_) => reply is Found || reply is Failed,
    }
}

/// The functions at the addresses `found`.
pub open spec fn vendor_of(found: Seq<usize>) -> Vendor {
    Vendor {
        open: found[0],
        ioctl: found[1],
        close: found[2],
        create: found[3],
        raw2buf: found[4],
        transform: found[5],
        sync: found[6],
        destroy: found[7],
    }
}

impl Loading {
    /// What is numbered is there.
    pub open spec fn wf(self) -> bool {
        match self.phase {
            LoadPhase::Library { library, .. } => library < 2,
            LoadPhase::Symbol(i) => i < 8,
        }
    }

    /// The step that is due.
    pub open spec fn due(self) -> LoadStepView {
        match self.phase {
            LoadPhase::Library { library, again } => LoadStepView::Open(
                library_path(library, again),
            ),
            LoadPhase::Symbol(i) => LoadStepView::Find {
                library: symbol_library(i),
                symbol: symbol_name(i),
            },
        }
    }

    /// Where the loading stands after `reply` came to the step that was due, or the error that
    /// ends it.
    pub open spec fn next(self, reply: LoadReplyView) -> Result<LoadProgress, Seq<char>> {
        match (self.phase, reply) {
            (LoadPhase::Library { library, again }, LoadReplyView::Loaded) => {
                let phase = if library == 0 {
                    LoadPhase::Library { library: 1, again: false }
                } else {
                    LoadPhase::Symbol(0)
                };
                Ok(LoadProgress::Going(Loading { phase, ..self }))
            },
            (LoadPhase::Library { library, again }, LoadReplyView::Failed(e)) => if again {
                Err(library_name(library) + " is not loadable: "@ + e)
            } else {
                let phase = LoadPhase::Library { library, again: true };
                Ok(LoadProgress::Going(Loading { phase, ..self }))
            },
            (LoadPhase::Symbol(i), LoadReplyView::Found(address)) => {
                let found = vstd::array::spec_array_update(self.found, i as int, address);
                if i < 7 {
                    Ok(
                        LoadProgress::Going(
                            Loading { phase: LoadPhase::Symbol((i + 1) as usize), found },
                        ),
                    )
                } else {
                    Ok(LoadProgress::Loaded(vendor_of(found@)))
                }
            },
            (LoadPhase::Symbol(i), LoadReplyView::Failed(e)) => Err(
                symbol_name(i) + " is missing: "@ + e,
            ),
            (_, _) => Ok(LoadProgress::Going(self)),
        }
    }
}

/// The two libraries.
fn library(number: usize) -> (name: &'static str)
    ensures
        name@ == library_name(number),
{
    if number == 0 {
        "libnvv4l2.so"
    } else {
        "libnvbuf_utils.so"
    }
}

/// The functions taken from the libraries.
fn symbol(i: usize) -> (name: &'static str)
    ensures
        name@ == symbol_name(i),
{
    if i == 0 {
        "v4l2_open\0"
    } else if i == 1 {
        "v4l2_ioctl\0"
    } else if i == 2 {
        "v4l2_close\0"
    } else if i == 3 {
        "NvBufferCreateEx\0"
    } else if i == 4 {
        "Raw2NvBuffer\0"
    } else if i == 5 {
        "NvBufferTransform\0"
    } else if i == 6 {
        "NvBufferMemSyncForDevice\0"
    } else {
        "NvBufferDestroy\0"
    }
}

impl Vendor {
    /// Starts loading both libraries.
    pub fn load() -> (loading: Loading)
        ensures
            loading.wf(),
            loading.phase == (LoadPhase::Library { library: 0, again: false }),
            loading.found@ == Seq::new(8, |i: int| 0usize),
    {
        Loading { phase: LoadPhase::Library { library: 0, again: false }, found: [0usize; 8] }
    }
}

impl Loading {
    /// The step that is due.
    pub fn step(&self) -> (step: LoadStep)
        requires
            self.wf(),
        ensures
            step@ == self.due(),
    {
        match self.phase {
            LoadPhase::Library { library: number, again } => {
                if again {
                    let mut path: String = "/usr/lib/aarch64-linux-gnu/tegra/".to_owned();
                    path.append(library(number));
                    LoadStep::Open(path)
                } else {
                    LoadStep::Open(library(number).to_owned())
                }
            },
            LoadPhase::Symbol(i) => LoadStep::Find {
                library: if i < 3 {
                    0
                } else {
                    1
                },
                symbol: symbol(i),
            },
        }
    }

    /// Takes `reply`, the answer to the step that was due. An error ends the loading.
    pub fn reply(self, reply: LoadReply) -> (end: Result<LoadProgress, String>)
        requires
            self.wf(),
            load_fits(self.phase, reply@),
        ensures
            match end {
                Ok(p) => self.next(reply@) == Ok::<LoadProgress, Seq<char>>(p),
                Err(e) => self.next(reply@) == Err::<LoadProgress, Seq<char>>(e@),
            },
    {
        let mut loading: Loading = self;
        match (self.phase, reply) {
            (LoadPhase::Library { library: number, .. }, LoadReply::Loaded) => {
                loading.phase = if number == 0 {
                    LoadPhase::Library { library: 1, again: false }
                } else {
                    LoadPhase::Symbol(0)
                };
                Ok(LoadProgress::Going(loading))
            },
            (LoadPhase::Library { library: number, again }, LoadReply::Failed(e)) => if again {
                let mut message: String = library(number).to_owned();
                message.append(" is not loadable: ");
                message.append(e.as_str());
                Err(message)
            } else {
                loading.phase = LoadPhase::Library { library: number, again: true };
                Ok(LoadProgress::Going(loading))
            },
            (LoadPhase::Symbol(i), LoadReply::Found(address)) => {
                loading.found[i] = address;
                if i < 7 {
                    loading.phase = LoadPhase::Symbol(i + 1);
                    Ok(LoadProgress::Going(loading))
                } else {
                    let found: [usize; 8] = loading.found;
                    Ok(
                        LoadProgress::Loaded(
                            Vendor {
                                open: found[0],
                                ioctl: found[1],
                                close: found[2],
                                create: found[3],
                                raw2buf: found[4],
                                transform: found[5],
                                sync: found[6],
                                destroy: found[7],
                            },
                        ),
                    )
                }
            },
            (LoadPhase::Symbol(i), LoadReply::Failed(e)) => {
                let mut message: String = symbol(i).to_owned();
                message.append(" is missing: ");
                message.append(e.as_str());
                Err(message)
            },
            (_, _) => Ok(LoadProgress::Going(loading)),
        }
    }
}

/// What a probe is waiting for.
#[derive(Clone, Copy, Debug, PartialEq, Eq)]
pub enum ProbePhase {
    Vendor,
    Node(usize),
    /// The node that opened, to be closed again.
    Close(i32),
}

/// The question whether this host has the encoder.
#[derive(Clone, Copy, Debug, PartialEq, Eq)]
pub struct Probe {
    pub phase: ProbePhase,
}

/// Where a probe stands after a call.
#[derive(Clone, Copy, Debug, PartialEq, Eq)]
pub enum ProbeProgress {
    Going(Probe),
    Answer(bool),
}

impl Probe {
    /// What is numbered is there.
    pub open spec fn wf(self) -> bool {
        self.phase matches ProbePhase::Node(i) ==> i < 2
    }

    /// The call that is due.
    pub open spec fn due(self) -> Call {
        match self.phase {
            ProbePhase::Vendor => Call::LoadVendor,
            ProbePhase::Node(i) => Call::Open { node: i, nonblocking: false },
            ProbePhase::Close(fd) => Call::Close(fd),
        }
    }

    /// Where the probe stands after `reply` came to the call that was due.
    pub open spec fn next(self, reply: ReplyView) -> ProbeProgress {
        match (self.phase, reply) {
            (ProbePhase::Vendor, ReplyView::Vendor(there)) => if there {
                ProbeProgress::Going(Probe { phase: ProbePhase::Node(0) })
            } else {
                ProbeProgress::Answer(false)
            },
            (ProbePhase::Node(i), ReplyView::Opened(fd)) => if fd >= 0 {
                ProbeProgress::Going(Probe { phase: ProbePhase::Close(fd) })
            } else if i < 1 {
                ProbeProgress::Going(Probe { phase: ProbePhase::Node((i + 1) as usize) })
            } else {
                ProbeProgress::Answer(false)
            },
            (ProbePhase::Close(_), ReplyView::Done) => ProbeProgress::Answer(true),
            (_, _) => ProbeProgress::Going(self),
        }
    }

    /// The call that is due.
    pub fn call(&self) -> (call: Call)
        ensures
            call == self.due(),
    {
        match self.phase {
            ProbePhase::Vendor => Call::LoadVendor,
            ProbePhase::Node(i) => Call::Open { node: i, nonblocking: false },
            ProbePhase::Close(fd) => Call::Close(fd),
        }
    }

    /// Takes `reply`, the answer to the call that was due.
    pub fn reply(self, reply: Reply) -> (progress: ProbeProgress)
        requires
            self.wf(),
            tegra::fits(self.due(), reply@),
        ensures
            progress == self.next(reply@),
    {
        match (self.phase, reply) {
            (ProbePhase::Vendor, Reply::Vendor(there)) => if there {
                ProbeProgress::Going(Probe { phase: ProbePhase::Node(0) })
            } else {
                ProbeProgress::Answer(false)
            },
            (ProbePhase::Node(i), Reply::Opened(fd)) => if fd >= 0 {
                ProbeProgress::Going(Probe { phase: ProbePhase::Close(fd) })
            } else if i < 1 {
                ProbeProgress::Going(Probe { phase: ProbePhase::Node(i + 1) })
            } else {
                ProbeProgress::Answer(false)
            },
            (ProbePhase::Close(_), Reply::Done) => ProbeProgress::Answer(true),
            (_, _) => ProbeProgress::Going(self),
        }
    }
}

/// Starts the question whether this host has the encoder: both vendor libraries load and a node
/// opens.
pub fn available() -> (probe: Probe)
    ensures
        probe.wf(),
        probe == (Probe { phase: ProbePhase::Vendor }),
{
    Probe { phase: ProbePhase::Vendor }
}

/// The answer to that question, asked for once: a failure is a property of the machine and not of
/// the session.
#[derive(Debug)]
pub struct Availability {
    progress: ProbeProgress,
}

/// The question before it has been asked.
pub open spec fn unasked() -> ProbeProgress {
    ProbeProgress::Going(Probe { phase: ProbePhase::Vendor })
}

/// The call that is due as long as the answer is not known.
pub open spec fn call_for(progress: ProbeProgress) -> Option<Call> {
    match progress {
        ProbeProgress::Going(probe) => Some(probe.due()),
        ProbeProgress::Answer(_) => None,
    }
}

impl Availability {
    /// The question as far as it has come, or its answer.
    pub closed spec fn view(&self) -> ProbeProgress {
        self.progress
    }

    /// The probe, as long as there is one, is well-formed.
    pub open spec fn wf(&self) -> bool {
        self@ matches ProbeProgress::Going(probe) ==> probe.wf()
    }

    /// The question before it has been asked.
    pub fn new() -> (availability: Availability)
        ensures
            availability.wf(),
            availability@ == unasked(),
    {
        Availability { progress: ProbeProgress::Going(available()) }
    }

    /// The answer, once it is known.
    pub fn answer(&self) -> (answer: Option<bool>)
        ensures
            match self@ {
                ProbeProgress::Going(_) => answer is None,
                ProbeProgress::Answer(there) => answer == Some(there),
            },
    {
        match self.progress {
            ProbeProgress::Going(_) => None,
            ProbeProgress::Answer(there) => Some(there),
        }
    }

    /// The call that is due; none once the answer is known.
    pub fn call(&self) -> (call: Option<Call>)
        ensures
            call == call_for(self@),
    {
        match self.progress {
            ProbeProgress::Going(probe) => Some(probe.call()),
            ProbeProgress::Answer(_) => None,
        }
    }

    /// Takes `reply`, the answer to the call that was due.
    pub fn reply(&mut self, reply: Reply)
        requires
            old(self).wf(),
            call_for(old(self)@) is Some,
            tegra::fits(call_for(old(self)@)->0, reply@),
        ensures
            final(self).wf(),
            final(self)@ == asked_on(old(self)@, reply@),
    {
        if let ProbeProgress::Going(probe) = self.progress {
            self.progress = probe.reply(reply);
        }
    }
}

/// Where the question stands after `reply`: a known answer stays.
pub open spec fn asked_on(progress: ProbeProgress, reply: ReplyView) -> ProbeProgress {
    match progress {
        ProbeProgress::Going(probe) => probe.next(reply),
        ProbeProgress::Answer(_) => progress,
    }
}

/// Whether `replies` are answers to the calls that are due one after the other from `progress` on;
/// none is due once the answer is known.
pub open spec fn answers(progress: ProbeProgress, replies: Seq<ReplyView>) -> bool
    decreases replies.len(),
{
    replies.len() > 0 ==> {
        &&& call_for(progress) matches Some(call)
        &&& tegra::fits(call, replies[0])
        &&& answers(asked_on(progress, replies[0]), replies.drop_first())
    }
}

/// Where the question stands after `replies`.
pub open spec fn asked_through(progress: ProbeProgress, replies: Seq<ReplyView>) -> ProbeProgress
    decreases replies.len(),
{
    if replies.len() == 0 {
        progress
    } else {
        asked_through(asked_on(progress, replies[0]), replies.drop_first())
    }
}

/// Once the answer is known, every later question gets that answer, and no call is made for it.
pub proof fn known_answer_is_not_asked_for_again(there: bool, replies: Seq<ReplyView>)
    requires
        answers(ProbeProgress::Answer(there), replies),
    ensures
        call_for(ProbeProgress::Answer(there)) is None,
        replies.len() == 0,
        asked_through(ProbeProgress::Answer(there), replies) == ProbeProgress::Answer(there),
{
}

/// Whether `reply` is a node that opened.
pub open spec fn opened(reply: ReplyView) -> bool {
    reply matches ReplyView::Opened(fd) && fd >= 0
}

/// The answer is that the encoder is there exactly if the libraries loaded and one of the two nodes
/// opened, and the last call before it was the one that closed that node.
pub proof fn encoder_is_there_if_a_node_opened(replies: Seq<ReplyView>, there: bool)
    requires
        answers(unasked(), replies),
        asked_through(unasked(), replies) == ProbeProgress::Answer(there),
    ensures
        1 <= replies.len() <= 4,
        there <==> replies[0] == ReplyView::Vendor(true) && (opened(replies[1]) || (replies.len()
            > 2 && opened(replies[2]))),
        there ==> replies.len() > 2 && opened(replies[replies.len() - 2]),
        there ==> call_for(asked_through(unasked(), replies.drop_last())) == Some(
            Call::Close(replies[replies.len() - 2]->Opened_0),
        ),
{
    reveal_with_fuel(answers, 6);
    reveal_with_fuel(asked_through, 6);
    let rest = replies.drop_first();
    assert(replies.len() > 1 ==> rest[0] == replies[1]);
    assert(replies.len() > 2 ==> rest.drop_first()[0] == replies[2]);
    assert(replies.len() > 3 ==> rest.drop_first().drop_first()[0] == replies[3]);
    if there {
        let before = replies.drop_last();
        assert(before[0] == replies[0]);
        assert(before.drop_first()[0] == replies[1]);
        if before.len() > 2 {
            assert(before.drop_first().drop_first()[0] == replies[2]);
        }
    }
}

/// How many steps of a loading are behind at least.
pub open spec fn load_place(phase: LoadPhase) -> nat {
    match phase {
        LoadPhase::Library { library, again } => (2 * library + if again {
            1int
        } else {
            0
        }) as nat,
        LoadPhase::Symbol(i) => (4 + i) as nat,
    }
}

/// A loading goes forward with every step. Both libraries are loaded before any function is
/// looked up, neither is given up before both places have been tried, and none of the eight
/// functions is left out.
pub proof fn loading_leaves_nothing_out(l: Loading, reply: LoadReplyView)
    requires
        l.wf(),
        load_fits(l.phase, reply),
    ensures
        match l.next(reply) {
            Ok(LoadProgress::Going(t)) => {
                &&& t.wf()
                &&& load_place(l.phase) < load_place(t.phase)
                &&& t.phase matches LoadPhase::Symbol(i) ==> if i == 0 {
                    l.phase matches LoadPhase::Library { library, .. } && library == 1
                        && reply is Loaded
                } else {
                    l.phase == LoadPhase::Symbol((i - 1) as usize)
                }
                &&& t.phase == (LoadPhase::Library { library: 1, again: false }) ==> reply is Loaded
            },
            Ok(LoadProgress::Loaded(_)) => l.phase == LoadPhase::Symbol(7),
            Err(_) => (l.phase matches LoadPhase::Library { again, .. } ==> again) && reply is Failed,
        },
{
}

/// Each function is the one found under its own name: where the functions looked up so far are at
/// the first of `addresses`, the next one found joins them, and the last puts each in its place.
pub proof fn functions_are_found_by_name(l: Loading, i: usize, addresses: Seq<usize>)
    requires
        l.wf(),
        l.phase == LoadPhase::Symbol(i),
        addresses.len() == 8,
        l.found@.take(i as int) == addresses.take(i as int),
    ensures
        match l.next(LoadReplyView::Found(addresses[i as int])) {
            Ok(LoadProgress::Going(t)) => t.phase == LoadPhase::Symbol((i + 1) as usize)
                && t.found@.take(i + 1) == addresses.take(i + 1),
            Ok(LoadProgress::Loaded(v)) => i == 7 && v == vendor_of(addresses),
            Err(_) => false,
        },
{
    let earlier = l.found@;
    let found = earlier.update(i as int, addresses[i as int]);
    assert(earlier.len() == 8);
    assert forall|j: int| 0 <= j <= i implies found[j] == addresses[j] by {
        if j < i {
            assert(earlier.take(i as int)[j] == earlier[j]);
            assert(addresses.take(i as int)[j] == addresses[j]);
        }
    }
    assert(found.take(i + 1) =~= addresses.take(i + 1));
    if i == 7 {
        assert(found =~= addresses);
    }
}

/// A probe leaves nothing open: the node that opened is closed before the answer is given, which
/// is that the encoder is there.
pub proof fn probe_leaves_nothing_open(p: Probe, reply: ReplyView)
    requires
        p.wf(),
        tegra::fits(p.due(), reply),
    ensures
        match p.next(reply) {
            ProbeProgress::Going(t) => t.wf() && (t.phase matches ProbePhase::Close(fd) ==> reply
                == ReplyView::Opened(fd) && fd >= 0 && t.due() == Call::Close(fd)),
            ProbeProgress::Answer(there) => there <==> p.phase is Close,
        },
        (reply matches ReplyView::Opened(fd) && fd >= 0) ==> p.next(reply) == ProbeProgress::Going(
            Probe { phase: ProbePhase::Close(reply->Opened_0) },
        ),
{
}

/// A probe and a creation try the same nodes in the same order: given the same answers, the one
/// finds a node where the other does, and gives up where the other does.
pub proof fn probe_and_creation_agree(p: Probe, c: Creation, reply: ReplyView)
    requires
        p.wf(),
        c.wf(),
        tegra::fits(p.due(), reply),
        (p.phase is Vendor && c.phase is Vendor) || (p.phase is Node && c.phase
            == setup::Phase::Node(p.phase->Node_0)),
    ensures
        match (p.next(reply), c.next(reply)) {
            (ProbeProgress::Going(q), setup::ProgressView::Going(d)) => match q.phase {
                ProbePhase::Node(i) => d.phase == setup::Phase::Node(i),
                ProbePhase::Close(fd) => d.opened() && d.device.fd == fd,
                ProbePhase::Vendor => false,
            },
            (ProbeProgress::Answer(there), setup::ProgressView::Failed(None, _)) => !there,
            _ => false,
        },
{
}

} // verus!
