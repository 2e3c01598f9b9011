use vstd::prelude::*;
use crate::error::Error;
use crate::eviction::{eviction_targets, lemma_eviction_counts, victims};
use crate::handle::{BackgroundHandle, PutImage};
use crate::pixel::Pixel;
use crate::property::{ByteOrder, ATOM_NONE, decode_pixmap_property, decoded_pixmap};

verus! {

/// How a decoded image would be fitted to the screen.
#[derive(Clone, Copy, Debug, PartialEq, Eq, Structural)]
pub enum ScalingMethod {
    Center,
    Fill,
    Max,
    Scale,
    Tile,
}

/// What the new background starts from.
#[derive(Clone, Debug)]
pub enum OpenMethod {
    /// Copy the image of the background currently installed, if any.
    KeepExisting,
    /// Start from a black frame.
    MakeNew,
    /// Start from an image file; not supported.
    LoadFromFile(ScalingMethod, String),
}

/// The geometry of a screen and the colours the server names for it.
#[derive(Clone, Copy, Debug, PartialEq, Eq, Structural)]
pub struct Screen {
    pub root: u32,
    pub width: u16,
    pub height: u16,
    pub depth: u8,
    pub white_pixel: u32,
    pub black_pixel: u32,
}

/// The two atoms through which tools publish the background pixmap.
#[derive(Clone, Copy, Debug, PartialEq, Eq, Structural)]
pub enum ConventionAtom {
    /// `_XROOTPMAP_ID`
    RootPixmap,
    /// `ESETROOT_PMAP_ID`
    EsetrootPixmap,
}

pub open spec fn atom_name(a: ConventionAtom) -> Seq<char> {
    match a {
        ConventionAtom::RootPixmap => "_XROOTPMAP_ID"@,
        ConventionAtom::EsetrootPixmap => "ESETROOT_PMAP_ID"@,
    }
}

impl ConventionAtom {
    /// The name the atom is interned under.
    pub fn name(&self) -> (r: &'static str)
        ensures
            r@ == atom_name(*self),
    {
        proof {
            reveal_strlit("_XROOTPMAP_ID");
            reveal_strlit("ESETROOT_PMAP_ID");
        }
        match self {
            ConventionAtom::RootPixmap => "_XROOTPMAP_ID",
            ConventionAtom::EsetrootPixmap => "ESETROOT_PMAP_ID",
        }
    }
}

/// A request for the driver to send to the display server.
#[derive(Debug, PartialEq, Eq)]
pub enum Action {
    /// Open a session and report the screens (answered by `Connected`).
    Connect,
    /// Allocate a pixmap on the root window (answered by `Created`).
    CreatePixmap { depth: u8, width: u16, height: u16, parent: u32 },
    /// Allocate a graphics context for the pixmap (answered by `Created`).
    CreateGc { drawable: u32, foreground: u32, background: u32 },
    /// Look up an atom, creating it unless `only_if_exists` (answered by `Atom`).
    InternAtom { atom: ConventionAtom, only_if_exists: bool },
    /// Read the first 32-bit item of a property of a window, of any type
    /// (answered by `Property`).
    GetProperty { window: u32, property: u32 },
    /// Read the whole image of a pixmap in Z-pixmap format (answered by `Image`).
    GetImage { pixmap: u32, width: u16, height: u16 },
    /// Upload an image (answered by `Done`).
    PutImage(PutImage),
    /// Terminate the client owning a resource (answered by `Done`).
    KillClient { resource: u32 },
    /// Replace a property of a window by one item of type PIXMAP (answered by `Done`).
    ChangeProperty { window: u32, property: u32, pixmap: u32 },
    /// Install a pixmap as a window's background (answered by `Done`).
    SetBackground { window: u32, pixmap: u32 },
    /// Clear a whole window so that its background is repainted (answered by `Done`).
    ClearWindow { window: u32 },
    /// Keep the session's resources after it closes (answered by `Done`).
    RetainPermanent,
    /// Flush the session's output (answered by `Done`).
    Flush,
}

/// What the driver observed when it performed the last action.
#[derive(Debug)]
pub enum Event {
    Connected { screens: Vec<Screen>, preferred: i32 },
    Created { id: u32 },
    Atom { id: u32 },
    Property { kind: u32, format: u8, value: Vec<u8> },
    Image { data: Vec<u8> },
    Done,
    /// The server refused the request with an error code.
    Rejected { code: u8 },
    /// The connection failed.
    Broken,
}

/// What the driver is to do next.
#[derive(Debug)]
pub enum Next {
    Perform(Action),
    Ready(BackgroundHandle),
    Failed(Error),
}

/// The step of the provisioning sequence whose request is outstanding.
#[derive(Clone, Copy, Debug, PartialEq, Eq, Structural)]
pub enum Phase {
    Connecting,
    CreatingPixmap,
    CreatingGc,
    ProbingRoot,
    ProbingEset,
    ReadingRoot,
    ReadingEset,
    FetchingImage,
    CopyingImage,
    Evicting,
    InterningRoot,
    InterningEset,
    WritingRoot,
    WritingEset,
    SettingBackground,
    Clearing,
    Retaining,
    Flushing,
    Done,
    Failed,
}

/// Position of a phase in the sequence; a failed attempt is at zero.
pub open spec fn rank(p: Phase) -> nat {
    match p {
        Phase::Failed => 0,
        Phase::Connecting => 1,
        Phase::CreatingPixmap => 2,
        Phase::CreatingGc => 3,
        Phase::ProbingRoot => 4,
        Phase::ProbingEset => 5,
        Phase::ReadingRoot => 6,
        Phase::ReadingEset => 7,
        Phase::FetchingImage => 8,
        Phase::CopyingImage => 9,
        Phase::Evicting => 10,
        Phase::InterningRoot => 11,
        Phase::InterningEset => 12,
        Phase::WritingRoot => 13,
        Phase::WritingEset => 14,
        Phase::SettingBackground => 15,
        Phase::Clearing => 16,
        Phase::Retaining => 17,
        Phase::Flushing => 18,
        Phase::Done => 19,
    }
}

pub open spec fn is_terminal(p: Phase) -> bool {
    p == Phase::Done || p == Phase::Failed
}

/// The pixmap whose image is copied forward: the one named by
/// `_XROOTPMAP_ID`, else the one named by `ESETROOT_PMAP_ID`.
pub open spec fn existing(root_old: Option<u32>, eset_old: Option<u32>) -> Option<u32> {
    if root_old is Some {
        root_old
    } else {
        eset_old
    }
}

/// The phase that follows the reading of both convention properties.
pub open spec fn after_probe(keep_existing: bool, root_old: Option<u32>, eset_old: Option<u32>) -> Phase {
    if keep_existing && existing(root_old, eset_old) is Some {
        Phase::FetchingImage
    } else if victims(root_old, eset_old).len() > 0 {
        Phase::Evicting
    } else {
        Phase::InterningRoot
    }
}

/// The error a refusal by the server becomes in a phase.
pub open spec fn rejection(p: Phase, code: u8) -> Error {
    if p == Phase::CreatingPixmap || p == Phase::CreatingGc {
        Error::ResourceCreationFailure { code }
    } else {
        Error::Protocol { code }
    }
}

/// Whether an event is the kind of reply the request of a phase gets.
pub open spec fn answers(p: Phase, e: Event) -> bool {
    match p {
        Phase::Connecting => e is Connected,
        Phase::CreatingPixmap | Phase::CreatingGc => e is Created,
        Phase::ProbingRoot | Phase::ProbingEset | Phase::InterningRoot | Phase::InterningEset => e is Atom,
        Phase::ReadingRoot | Phase::ReadingEset => e is Property,
        Phase::FetchingImage => e is Image,
        Phase::Done | Phase::Failed => false,
        _ => e is Done,
    }
}

/// The state of one provisioning attempt, as a model.
pub struct BootstrapView {
    pub keep_existing: bool,
    pub order: ByteOrder,
    pub phase: Phase,
    pub screen: Screen,
    pub pixmap: u32,
    pub gc: u32,
    pub root_atom: u32,
    pub eset_atom: u32,
    pub root_old: Option<u32>,
    pub eset_old: Option<u32>,
    pub victims: Seq<u32>,
    pub evicted: nat,
    /// The values this attempt has stored in root-window properties.
    pub props: Map<u32, u32>,
}

impl BootstrapView {
    /// Whether `a` is the request that the current phase is waiting on.
    pub open spec fn requested(self, a: Action) -> bool {
        let s = self.screen;
        match self.phase {
            Phase::Connecting => a is Connect,
            Phase::CreatingPixmap => a == (Action::CreatePixmap {
                depth: s.depth,
                width: s.width,
                height: s.height,
                parent: s.root,
            }),
            Phase::CreatingGc => a == (Action::CreateGc {
                drawable: self.pixmap,
                foreground: s.white_pixel,
                background: s.black_pixel,
            }),
            Phase::ProbingRoot => a == (Action::InternAtom { atom: ConventionAtom::RootPixmap, only_if_exists: true }),
            Phase::ProbingEset => a == (Action::InternAtom { atom: ConventionAtom::EsetrootPixmap, only_if_exists: true }),
            Phase::ReadingRoot => a == (Action::GetProperty { window: s.root, property: self.root_atom }),
            Phase::ReadingEset => a == (Action::GetProperty { window: s.root, property: self.eset_atom }),
            Phase::FetchingImage => existing(self.root_old, self.eset_old) is Some && a == (Action::GetImage {
                pixmap: existing(self.root_old, self.eset_old)->0,
                width: s.width,
                height: s.height,
            }),
            Phase::CopyingImage => a is PutImage && a->PutImage_0.drawable == self.pixmap && a->PutImage_0.gc == self.gc
                && a->PutImage_0.width == s.width && a->PutImage_0.height == s.height && a->PutImage_0.depth == s.depth,
            Phase::Evicting => 0 < self.evicted && a == (Action::KillClient { resource: self.victims[self.evicted - 1] }),
            Phase::InterningRoot => a == (Action::InternAtom { atom: ConventionAtom::RootPixmap, only_if_exists: false }),
            Phase::InterningEset => a == (Action::InternAtom { atom: ConventionAtom::EsetrootPixmap, only_if_exists: false }),
            Phase::WritingRoot => a == (Action::ChangeProperty { window: s.root, property: self.root_atom, pixmap: self.pixmap }),
            Phase::WritingEset => a == (Action::ChangeProperty { window: s.root, property: self.eset_atom, pixmap: self.pixmap }),
            Phase::SettingBackground => a == (Action::SetBackground { window: s.root, pixmap: self.pixmap }),
            Phase::Clearing => a == (Action::ClearWindow { window: s.root }),
            Phase::Retaining => a is RetainPermanent,
            Phase::Flushing => a is Flush,
            Phase::Done | Phase::Failed => false,
        }
    }

    /// Both convention atoms exist and name this attempt's pixmap.
    pub open spec fn published(self) -> bool {
        &&& self.root_atom != ATOM_NONE
        &&& self.eset_atom != ATOM_NONE
        &&& self.props.contains_key(self.root_atom)
        &&& self.props.contains_key(self.eset_atom)
        &&& self.props[self.root_atom] == self.pixmap
        &&& self.props[self.eset_atom] == self.pixmap
    }

    pub open spec fn wf(self) -> bool {
        &&& self.evicted <= self.victims.len()
        &&& rank(self.phase) >= rank(Phase::Evicting) ==> self.victims == victims(self.root_old, self.eset_old)
        &&& rank(self.phase) > rank(Phase::Evicting) ==> self.evicted == self.victims.len()
        &&& rank(self.phase) >= rank(Phase::WritingRoot) ==> self.root_atom != ATOM_NONE && self.eset_atom != ATOM_NONE
        &&& rank(self.phase) >= rank(Phase::WritingEset) ==> self.props.contains_key(self.root_atom)
            && self.props[self.root_atom] == self.pixmap
        &&& rank(self.phase) >= rank(Phase::SettingBackground) ==> self.published()
    }
}

/// One attempt to install a new background, driven one reply at a time.
pub struct Bootstrap {
    keep_existing: bool,
    order: ByteOrder,
    phase: Phase,
    screen: Screen,
    pixmap: u32,
    gc: u32,
    root_atom: u32,
    eset_atom: u32,
    root_old: Option<u32>,
    eset_old: Option<u32>,
    victims: Vec<u32>,
    evicted: usize,
    props: Ghost<Map<u32, u32>>,
}

impl View for Bootstrap {
    type V = BootstrapView;

    closed spec fn view(&self) -> BootstrapView {
        BootstrapView {
            keep_existing: self.keep_existing,
            order: self.order,
            phase: self.phase,
            screen: self.screen,
            pixmap: self.pixmap,
            gc: self.gc,
            root_atom: self.root_atom,
            eset_atom: self.eset_atom,
            root_old: self.root_old,
            eset_old: self.eset_old,
            victims: self.victims@,
            evicted: self.evicted as nat,
            props: self.props@,
        }
    }
}

/// The handle handed out at the end of a successful attempt.
pub open spec fn ready_handle(h: BackgroundHandle, s: BootstrapView) -> bool {
    &&& h.wf()
    &&& h.spec_pixmap() == s.pixmap
    &&& h.spec_context() == s.gc
    &&& h.spec_root() == s.screen.root
    &&& h.spec_width() == s.screen.width
    &&& h.spec_height() == s.screen.height
    &&& h.spec_depth() == s.screen.depth
    &&& forall|i: int| 0 <= i < h.frame().len() ==> #[trigger] h.frame()[i] == (Pixel { r: 0, g: 0, b: 0 })
}

/// The phase that an acknowledgement moves the publication sequence to.
pub open spec fn after_publishing_step(p: Phase) -> Phase {
    match p {
        Phase::WritingRoot => Phase::WritingEset,
        Phase::WritingEset => Phase::SettingBackground,
        Phase::SettingBackground => Phase::Clearing,
        Phase::Clearing => Phase::Retaining,
        Phase::Retaining => Phase::Flushing,
        _ => Phase::Done,
    }
}

impl Bootstrap {
    pub fn phase(&self) -> (r: Phase)
        ensures
            r == self@.phase,
    {
        self.phase
    }

    /// Starts an attempt. `order` is the byte order of the machine that
    /// decodes property values.
    pub fn new(method: &OpenMethod, order: ByteOrder) -> (r: (Bootstrap, Next))
        ensures
            r.0@.wf(),
            r.0@.order == order,
            r.0@.keep_existing == (method is KeepExisting),
            r.0@.props == Map::<u32, u32>::empty(),
            method is LoadFromFile ==> r.0@.phase == Phase::Failed && r.1 == Next::Failed(Error::UnsupportedFeature),
            !(method is LoadFromFile) ==> r.0@.phase == Phase::Connecting && r.1 == Next::Perform(Action::Connect),
    {
        let (phase, next) = match method {
            OpenMethod::LoadFromFile(_, _) => (Phase::Failed, Next::Failed(Error::UnsupportedFeature)),
            _ => (Phase::Connecting, Next::Perform(Action::Connect)),
        };
        let keep_existing = match method {
            OpenMethod::KeepExisting => true,
            _ => false,
        };
        let b = Bootstrap {
            keep_existing,
            order,
            phase,
            screen: Screen { root: 0, width: 0, height: 0, depth: 0, white_pixel: 0, black_pixel: 0 },
            pixmap: 0,
            gc: 0,
            root_atom: ATOM_NONE,
            eset_atom: ATOM_NONE,
            root_old: None,
            eset_old: None,
            victims: Vec::new(),
            evicted: 0,
            props: Ghost(Map::empty()),
        };
        (b, next)
    }

    fn fail(&mut self, e: Error) -> (r: Next)
        requires
            old(self)@.wf(),
        ensures
            final(self)@ == (BootstrapView { phase: Phase::Failed, ..old(self)@ }),
            final(self)@.wf(),
            r == Next::Failed(e),
    {
        self.phase = Phase::Failed;
        Next::Failed(e)
    }

    /// Terminates the next owner on the list, or moves on to creating the
    /// convention atoms once every owner is gone.
    fn evict_next(&mut self) -> (r: Next)
        requires
            old(self)@.wf(),
            old(self)@.victims == victims(old(self)@.root_old, old(self)@.eset_old),
            rank(old(self)@.phase) <= rank(Phase::Evicting),
            rank(old(self)@.phase) > 0,
        ensures
            final(self)@.wf(),
            old(self)@.evicted < old(self)@.victims.len() ==> final(self)@ == (BootstrapView {
                phase: Phase::Evicting,
                evicted: old(self)@.evicted + 1,
                ..old(self)@
            }),
            old(self)@.evicted >= old(self)@.victims.len() ==> final(self)@ == (BootstrapView {
                phase: Phase::InterningRoot,
                ..old(self)@
            }),
            r is Perform,
            final(self)@.requested(r->Perform_0),
    {
        if self.evicted < self.victims.len() {
            let resource = self.victims[self.evicted];
            self.evicted = self.evicted + 1;
            self.phase = Phase::Evicting;
            Next::Perform(Action::KillClient { resource })
        } else {
            self.phase = Phase::InterningRoot;
            Next::Perform(Action::InternAtom { atom: ConventionAtom::RootPixmap, only_if_exists: false })
        }
    }

    /// Lists the owners to evict and starts on the first.
    fn begin_eviction(&mut self) -> (r: Next)
        requires
            old(self)@.wf(),
            0 < rank(old(self)@.phase) < rank(Phase::Evicting),
        ensures
            final(self)@.wf(),
            final(self)@.victims == victims(old(self)@.root_old, old(self)@.eset_old),
            final(self)@.phase == (if victims(old(self)@.root_old, old(self)@.eset_old).len() > 0 {
                Phase::Evicting
            } else {
                Phase::InterningRoot
            }),
            final(self)@ == (BootstrapView {
                phase: final(self)@.phase,
                victims: final(self)@.victims,
                evicted: final(self)@.evicted,
                ..old(self)@
            }),
            final(self)@.phase == Phase::Evicting ==> final(self)@.evicted == 1,
            r is Perform,
            final(self)@.requested(r->Perform_0),
    {
        self.victims = eviction_targets(self.root_old, self.eset_old);
        self.evicted = 0;
        self.evict_next()
    }

    /// Moves on once both convention properties are known: copies the
    /// existing image forward when asked to, else evicts.
    fn finish_probe(&mut self) -> (r: Next)
        requires
            old(self)@.wf(),
            0 < rank(old(self)@.phase) < rank(Phase::FetchingImage),
        ensures
            final(self)@.wf(),
            final(self)@.phase == after_probe(old(self)@.keep_existing, old(self)@.root_old, old(self)@.eset_old),
            final(self)@ == (BootstrapView {
                phase: final(self)@.phase,
                victims: final(self)@.victims,
                evicted: final(self)@.evicted,
                ..old(self)@
            }),
            final(self)@.phase == Phase::Evicting ==> final(self)@.evicted == 1,
            r is Perform,
            final(self)@.requested(r->Perform_0),
    {
        let old_pixmap = if self.root_old.is_some() {
            self.root_old
        } else {
            self.eset_old
        };
        match old_pixmap {
            Some(pixmap) if self.keep_existing => {
                self.phase = Phase::FetchingImage;
                Next::Perform(Action::GetImage { pixmap, width: self.screen.width, height: self.screen.height })
            },
            _ => self.begin_eviction(),
        }
    }

    /// Takes the driver's observation of the last action and decides the
    /// next one. Every failure is final: nothing is retried, and nothing
    /// already done is undone.
    pub fn step(&mut self, event: Event) -> (r: Next)
        requires
            old(self)@.wf(),
            !is_terminal(old(self)@.phase),
        ensures
            final(self)@.wf(),
            final(self)@.keep_existing == old(self)@.keep_existing,
            final(self)@.order == old(self)@.order,
            r is Perform <==> !is_terminal(final(self)@.phase),
            r is Ready <==> final(self)@.phase == Phase::Done,
            r is Perform ==> final(self)@.requested(r->Perform_0),
            r is Ready ==> ready_handle(r->Ready_0, final(self)@),
            event is Broken ==> r == Next::Failed(Error::Transport),
            event is Rejected ==> r == Next::Failed(rejection(old(self)@.phase, event->code)),
            !answers(old(self)@.phase, event) && !(event is Broken) && !(event is Rejected)
                ==> r == Next::Failed(Error::UnexpectedReply),
            answers(old(self)@.phase, event) && !(r is Failed) ==> rank(final(self)@.phase) > rank(old(self)@.phase)
                || (final(self)@.phase == Phase::Evicting && final(self)@.evicted == old(self)@.evicted + 1),
            old(self)@.phase == Phase::Connecting && event is Connected ==> if 0 <= event->preferred < event->screens@.len() {
                final(self)@.screen == event->screens@[event->preferred as int]
                    && final(self)@.phase == Phase::CreatingPixmap
            } else {
                r == Next::Failed(Error::NoScreenFound)
            },
            old(self)@.phase == Phase::CreatingPixmap && event is Created
                ==> final(self)@.pixmap == event->Created_id && final(self)@.phase == Phase::CreatingGc,
            old(self)@.phase == Phase::CreatingGc && event is Created
                ==> final(self)@.gc == event->Created_id && final(self)@.phase == Phase::ProbingRoot,
            old(self)@.phase == Phase::ProbingRoot && event is Atom
                ==> final(self)@.root_atom == event->Atom_id && final(self)@.phase == Phase::ProbingEset,
            old(self)@.phase == Phase::ProbingEset && event is Atom ==> {
                &&& final(self)@.eset_atom == event->Atom_id
                &&& old(self)@.root_atom != ATOM_NONE ==> final(self)@.phase == Phase::ReadingRoot
                &&& old(self)@.root_atom == ATOM_NONE && event->Atom_id != ATOM_NONE
                    ==> final(self)@.phase == Phase::ReadingEset && final(self)@.root_old is None
                &&& old(self)@.root_atom == ATOM_NONE && event->Atom_id == ATOM_NONE ==> final(self)@.root_old is None
                    && final(self)@.eset_old is None
                    && final(self)@.phase == after_probe(old(self)@.keep_existing, None, None)
            },
            old(self)@.phase == Phase::ReadingRoot && event is Property ==> match decoded_pixmap(
                event->kind,
                event->format,
                event->value@,
                old(self)@.order,
            ) {
                Err(e) => r == Next::Failed(e),
                Ok(id) => final(self)@.root_old == id && if old(self)@.eset_atom != ATOM_NONE {
                    final(self)@.phase == Phase::ReadingEset
                } else {
                    final(self)@.eset_old is None && final(self)@.phase == after_probe(
                        old(self)@.keep_existing,
                        id,
                        None,
                    )
                },
            },
            old(self)@.phase == Phase::ReadingEset && event is Property ==> match decoded_pixmap(
                event->kind,
                event->format,
                event->value@,
                old(self)@.order,
            ) {
                Err(e) => r == Next::Failed(e),
                Ok(id) => final(self)@.eset_old == id && final(self)@.root_old == old(self)@.root_old
                    && final(self)@.phase == after_probe(old(self)@.keep_existing, old(self)@.root_old, id),
            },
            old(self)@.phase == Phase::FetchingImage && event is Image ==> final(self)@.phase == Phase::CopyingImage
                && r is Perform && r->Perform_0 is PutImage && r->Perform_0->PutImage_0.data == event->data,
            old(self)@.phase == Phase::CopyingImage && event is Done ==> final(self)@.victims == victims(
                old(self)@.root_old,
                old(self)@.eset_old,
            ) && final(self)@.phase == (if victims(old(self)@.root_old, old(self)@.eset_old).len() > 0 {
                Phase::Evicting
            } else {
                Phase::InterningRoot
            }),
            old(self)@.phase == Phase::Evicting && event is Done ==> if old(self)@.evicted < old(self)@.victims.len() {
                final(self)@.phase == Phase::Evicting && final(self)@.evicted == old(self)@.evicted + 1
            } else {
                final(self)@.phase == Phase::InterningRoot
            },
            rank(old(self)@.phase) >= rank(Phase::WritingRoot) && event is Done
                ==> final(self)@.phase == after_publishing_step(old(self)@.phase),
            old(self)@.phase == Phase::InterningRoot && event is Atom
                ==> final(self)@.root_atom == event->Atom_id && final(self)@.phase == Phase::InterningEset,
            old(self)@.phase == Phase::InterningEset && event is Atom ==> if old(self)@.root_atom == ATOM_NONE
                || event->Atom_id == ATOM_NONE {
                r == Next::Failed(Error::FailedRootAtomCreation)
            } else {
                final(self)@.eset_atom == event->Atom_id && final(self)@.phase == Phase::WritingRoot
            },
            old(self)@.phase == Phase::WritingRoot && event is Done ==> final(self)@.props == old(self)@.props.insert(
                old(self)@.root_atom,
                old(self)@.pixmap,
            ),
            old(self)@.phase == Phase::WritingEset && event is Done ==> final(self)@.props == old(self)@.props.insert(
                old(self)@.eset_atom,
                old(self)@.pixmap,
            ),
            old(self)@.phase != Phase::CreatingPixmap ==> final(self)@.pixmap == old(self)@.pixmap,
            old(self)@.phase != Phase::CreatingGc ==> final(self)@.gc == old(self)@.gc,
            old(self)@.phase != Phase::ProbingRoot && old(self)@.phase != Phase::InterningRoot
                ==> final(self)@.root_atom == old(self)@.root_atom,
            old(self)@.phase != Phase::ProbingEset && old(self)@.phase != Phase::InterningEset
                ==> final(self)@.eset_atom == old(self)@.eset_atom,
            rank(old(self)@.phase) > rank(Phase::ReadingEset) ==> final(self)@.root_old == old(self)@.root_old
                && final(self)@.eset_old == old(self)@.eset_old,
            rank(old(self)@.phase) > rank(Phase::Evicting) ==> final(self)@.victims == old(self)@.victims,
            old(self)@.phase != Phase::Connecting ==> final(self)@.screen == old(self)@.screen,
            final(self)@.phase == Phase::Evicting && old(self)@.phase != Phase::Evicting ==> final(self)@.evicted == 1,
    {
        let phase = self.phase;
        match event {
            Event::Broken => return self.fail(Error::Transport),
            Event::Rejected { code } => {
                let e = if phase == Phase::CreatingPixmap || phase == Phase::CreatingGc {
                    Error::ResourceCreationFailure { code }
                } else {
                    Error::Protocol { code }
                };
                return self.fail(e);
            },
            _ => {},
        }
        match (phase, event) {
            (Phase::Connecting, Event::Connected { screens, preferred }) => {
                if preferred < 0 || preferred as usize >= screens.len() {
                    return self.fail(Error::NoScreenFound);
                }
                let screen = screens[preferred as usize];
                self.screen = screen;
                self.phase = Phase::CreatingPixmap;
                Next::Perform(Action::CreatePixmap {
                    depth: screen.depth,
                    width: screen.width,
                    height: screen.height,
                    parent: screen.root,
                })
            },
            (Phase::CreatingPixmap, Event::Created { id }) => {
                self.pixmap = id;
                self.phase = Phase::CreatingGc;
                Next::Perform(Action::CreateGc {
                    drawable: id,
                    foreground: self.screen.white_pixel,
                    background: self.screen.black_pixel,
                })
            },
            (Phase::CreatingGc, Event::Created { id }) => {
                self.gc = id;
                self.phase = Phase::ProbingRoot;
                Next::Perform(Action::InternAtom { atom: ConventionAtom::RootPixmap, only_if_exists: true })
            },
            (Phase::ProbingRoot, Event::Atom { id }) => {
                self.root_atom = id;
                self.phase = Phase::ProbingEset;
                Next::Perform(Action::InternAtom { atom: ConventionAtom::EsetrootPixmap, only_if_exists: true })
            },
            (Phase::ProbingEset, Event::Atom { id }) => {
                self.eset_atom = id;
                self.root_old = None;
                self.eset_old = None;
                if self.root_atom != ATOM_NONE {
                    self.phase = Phase::ReadingRoot;
                    Next::Perform(Action::GetProperty { window: self.screen.root, property: self.root_atom })
                } else if id != ATOM_NONE {
                    self.phase = Phase::ReadingEset;
                    Next::Perform(Action::GetProperty { window: self.screen.root, property: id })
                } else {
                    self.finish_probe()
                }
            },
            (Phase::ReadingRoot, Event::Property { kind, format, value }) => {
                match decode_pixmap_property(kind, format, &value, self.order) {
                    Err(e) => self.fail(e),
                    Ok(id) => {
                        self.root_old = id;
                        if self.eset_atom != ATOM_NONE {
                            self.phase = Phase::ReadingEset;
                            Next::Perform(Action::GetProperty { window: self.screen.root, property: self.eset_atom })
                        } else {
                            self.eset_old = None;
                            self.finish_probe()
                        }
                    },
                }
            },
            (Phase::ReadingEset, Event::Property { kind, format, value }) => {
                match decode_pixmap_property(kind, format, &value, self.order) {
                    Err(e) => self.fail(e),
                    Ok(id) => {
                        self.eset_old = id;
                        self.finish_probe()
                    },
                }
            },
            (Phase::FetchingImage, Event::Image { data }) => {
                self.phase = Phase::CopyingImage;
                Next::Perform(Action::PutImage(PutImage {
                    drawable: self.pixmap,
                    gc: self.gc,
                    width: self.screen.width,
                    height: self.screen.height,
                    depth: self.screen.depth,
                    data,
                }))
            },
            (Phase::CopyingImage, Event::Done) => self.begin_eviction(),
            (Phase::Evicting, Event::Done) => self.evict_next(),
            (Phase::InterningRoot, Event::Atom { id }) => {
                self.root_atom = id;
                self.phase = Phase::InterningEset;
                Next::Perform(Action::InternAtom { atom: ConventionAtom::EsetrootPixmap, only_if_exists: false })
            },
            (Phase::InterningEset, Event::Atom { id }) => {
                if self.root_atom == ATOM_NONE || id == ATOM_NONE {
                    return self.fail(Error::FailedRootAtomCreation);
                }
                self.eset_atom = id;
                self.phase = Phase::WritingRoot;
                Next::Perform(Action::ChangeProperty {
                    window: self.screen.root,
                    property: self.root_atom,
                    pixmap: self.pixmap,
                })
            },
            (Phase::WritingRoot, Event::Done) => {
                self.props = Ghost(self.props@.insert(self.root_atom, self.pixmap));
                self.phase = Phase::WritingEset;
                Next::Perform(Action::ChangeProperty {
                    window: self.screen.root,
                    property: self.eset_atom,
                    pixmap: self.pixmap,
                })
            },
            (Phase::WritingEset, Event::Done) => {
                self.props = Ghost(self.props@.insert(self.eset_atom, self.pixmap));
                self.phase = Phase::SettingBackground;
                Next::Perform(Action::SetBackground { window: self.screen.root, pixmap: self.pixmap })
            },
            (Phase::SettingBackground, Event::Done) => {
                self.phase = Phase::Clearing;
                Next::Perform(Action::ClearWindow { window: self.screen.root })
            },
            (Phase::Clearing, Event::Done) => {
                self.phase = Phase::Retaining;
                Next::Perform(Action::RetainPermanent)
            },
            (Phase::Retaining, Event::Done) => {
                self.phase = Phase::Flushing;
                Next::Perform(Action::Flush)
            },
            (Phase::Flushing, Event::Done) => {
                self.phase = Phase::Done;
                let s = self.screen;
                Next::Ready(BackgroundHandle::new(self.gc, self.pixmap, s.root, s.width, s.height, s.depth))
            },
            _ => self.fail(Error::UnexpectedReply),
        }
    }
}

/// An attempt that has succeeded has asked for the termination of every
/// previous owner it found, each once (none, one, or two of them), before it
/// published, and left
/// both convention atoms in existence, each naming the pixmap it created:
/// reading them back yields that pixmap.
pub proof fn lemma_success_publishes(s: BootstrapView)
    requires
        s.wf(),
        s.phase == Phase::Done,
    ensures
        s.published(),
        s.victims == victims(s.root_old, s.eset_old),
        s.victims.no_duplicates(),
        s.evicted == s.victims.len(),
        s.evicted == (match (s.root_old, s.eset_old) {
            (None, None) => 0int,
            (Some(x), Some(e)) => if x == e { 1int } else { 2int },
            _ => 1int,
        }),
{
    lemma_eviction_counts(s.root_old, s.eset_old);
}

} // verus!
