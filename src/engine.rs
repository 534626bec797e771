//! The file operation engine as a machine that its host drives: the machine
//! names the next filesystem action, the host performs it and hands back what
//! happened, and the machine decides the step after. Create, rename, delete,
//! copy (with collision-free naming and recursive directory copies) and move
//! (rename first, copy and delete when the rename fails).
use vstd::prelude::*;
use crate::naming::{
    candidate_spec, lemma_first_free_is, numbered_name, resolved_spec, split_name, MAX_ATTEMPTS,
};
use crate::paths::{file_name, file_name_spec, join_path, join_spec, sibling_path, sibling_spec};

verus! {

/// What a probe found at a path.
#[derive(Clone, Copy, Debug, PartialEq, Eq, Structural)]
pub enum PathKind {
    Missing,
    File,
    Dir,
}

/// The filesystem primitives the engine asks its host for.
#[derive(Clone, Copy, Debug, PartialEq, Eq, Structural)]
pub enum ActionKind {
    /// Find whether `path` exists and whether it is a directory.
    Probe,
    /// Create the single directory `path`.
    CreateDir,
    /// Create `path` and any missing directories above it.
    CreateDirAll,
    /// List the names of the entries of the directory `path`.
    ListDir,
    /// Rename `path` to `to`.
    Rename,
    /// Copy the file `path` to `to`.
    CopyFile,
    /// Remove the file `path`.
    RemoveFile,
    /// Remove the directory `path` with all it holds.
    RemoveDirAll,
}

/// One filesystem action; `to` is empty but for `Rename` and `CopyFile`.
#[derive(Debug)]
pub struct FsAction {
    pub kind: ActionKind,
    pub path: String,
    pub to: String,
}

pub struct ActionView {
    pub kind: ActionKind,
    pub path: Seq<char>,
    pub to: Seq<char>,
}

impl View for FsAction {
    type V = ActionView;

    open spec fn view(&self) -> ActionView {
        ActionView { kind: self.kind, path: self.path@, to: self.to@ }
    }
}

/// What the host reports after performing an action.
#[derive(Debug)]
pub enum FsEvent {
    /// The answer to a probe.
    Probed(PathKind),
    /// The action succeeded.
    Done,
    /// The action failed, with the host's message.
    Failed(String),
    /// The names of a directory's entries, in the order listed.
    Listed(Vec<String>),
}

pub enum EventView {
    Probed(PathKind),
    Done,
    Failed(Seq<char>),
    Listed(Seq<Seq<char>>),
}

impl View for FsEvent {
    type V = EventView;

    open spec fn view(&self) -> EventView {
        match self {
            FsEvent::Probed(k) => EventView::Probed(*k),
            FsEvent::Done => EventView::Done,
            FsEvent::Failed(m) => EventView::Failed(m@),
            FsEvent::Listed(v) => EventView::Listed(v.deep_view()),
        }
    }
}

/// Why an operation failed.
#[derive(Clone, Copy, Debug, PartialEq, Eq, Structural)]
pub enum FsErrorKind {
    /// The source is missing; the detail is its path.
    NotFound,
    /// The name is taken; the detail is the name (create, rename) or the
    /// destination path (move).
    AlreadyExists,
    /// The path has no file name or no parent; the detail is the path.
    InvalidPath,
    /// A filesystem action failed; the detail is the host's message.
    Io,
    /// A move copied the source but could not delete it: both copies exist.
    /// The detail is the host's message.
    Duplicated,
    /// The host answered an action with an event of the wrong shape.
    UnexpectedEvent,
}

#[derive(Debug)]
pub struct FsError {
    pub kind: FsErrorKind,
    pub detail: String,
}

pub struct ErrorView {
    pub kind: FsErrorKind,
    pub detail: Seq<char>,
}

impl View for FsError {
    type V = ErrorView;

    open spec fn view(&self) -> ErrorView {
        ErrorView { kind: self.kind, detail: self.detail@ }
    }
}

/// An action on one path.
pub open spec fn act1(kind: ActionKind, path: Seq<char>) -> ActionView {
    ActionView { kind, path, to: Seq::empty() }
}

/// An action from one path to another.
pub open spec fn act2(kind: ActionKind, path: Seq<char>, to: Seq<char>) -> ActionView {
    ActionView { kind, path, to }
}

fn new_act1(kind: ActionKind, path: &String) -> (r: FsAction)
    ensures
        r@ == act1(kind, path@),
{
    FsAction { kind, path: path.clone(), to: String::new() }
}

fn new_act2(kind: ActionKind, path: &String, to: &String) -> (r: FsAction)
    ensures
        r@ == act2(kind, path@, to@),
{
    FsAction { kind, path: path.clone(), to: to.clone() }
}

// ---------------------------------------------------------------------------
// Recursive directory copy
// ---------------------------------------------------------------------------

/// A directory being copied: its entries' names and how many were taken up.
pub struct CopyFrame {
    pub src: String,
    pub dest: String,
    pub names: Vec<String>,
    pub next: usize,
}

pub struct FrameView {
    pub src: Seq<char>,
    pub dest: Seq<char>,
    pub names: Seq<Seq<char>>,
    pub next: nat,
}

impl View for CopyFrame {
    type V = FrameView;

    open spec fn view(&self) -> FrameView {
        FrameView {
            src: self.src@,
            dest: self.dest@,
            names: self.names.deep_view(),
            next: self.next as nat,
        }
    }
}

/// Where a directory copy stands.
#[derive(Clone, Copy, Debug, PartialEq, Eq, Structural)]
pub enum TreeStage {
    /// Create the destination directory `dest`.
    Create,
    /// List the source directory `src`.
    List,
    /// Probe the entry `src` to learn whether it is a directory.
    Inspect,
    /// Copy the file `src` to `dest`.
    CopyFile,
    /// Every entry has been copied.
    Complete,
}

/// A depth-first copy of the directory tree under `root_src` into
/// `root_dest`: each directory is created, then listed, then each of its
/// entries in listing order is copied (a file) or copied the same way (a
/// directory) before the next entry. `src` and `dest` are the entry at hand,
/// and `frames` holds the directories still being worked through, innermost
/// last.
pub struct TreeCopy {
    pub root_src: String,
    pub root_dest: String,
    pub stage: TreeStage,
    pub src: String,
    pub dest: String,
    pub frames: Vec<CopyFrame>,
}

pub struct TreeView {
    pub root_src: Seq<char>,
    pub root_dest: Seq<char>,
    pub stage: TreeStage,
    pub src: Seq<char>,
    pub dest: Seq<char>,
    pub frames: Seq<FrameView>,
}

impl View for TreeCopy {
    type V = TreeView;

    open spec fn view(&self) -> TreeView {
        TreeView {
            root_src: self.root_src@,
            root_dest: self.root_dest@,
            stage: self.stage,
            src: self.src@,
            dest: self.dest@,
            frames: self.frames@.map_values(|f: CopyFrame| f@),
        }
    }
}

/// Every frame has taken up at most its own entries.
pub open spec fn frames_wf(frames: Seq<FrameView>) -> bool {
    forall|i: int| 0 <= i < frames.len() ==> #[trigger] frames[i].next <= frames[i].names.len()
}

/// The copy of `src` into `dest`, before anything is done.
pub open spec fn tree_start_spec(src: Seq<char>, dest: Seq<char>) -> TreeView {
    TreeView {
        root_src: src,
        root_dest: dest,
        stage: TreeStage::Create,
        src,
        dest,
        frames: Seq::empty(),
    }
}

/// The path reached from `root` through the names `comps`, one level each.
pub open spec fn path_of(root: Seq<char>, comps: Seq<Seq<char>>, sep: char) -> Seq<char>
    decreases comps.len(),
{
    if comps.len() == 0 {
        root
    } else {
        join_spec(path_of(root, comps.drop_last(), sep), comps.last(), sep)
    }
}

/// `s` and `d` lie at the same place below the source root and the
/// destination root.
pub open spec fn parallel(
    root_src: Seq<char>,
    root_dest: Seq<char>,
    s: Seq<char>,
    d: Seq<char>,
    sep: char,
) -> bool {
    exists|c: Seq<Seq<char>>|
        #[trigger] path_of(root_src, c, sep) == s && path_of(root_dest, c, sep) == d
}

/// The frames are consistent, and every directory in them, as well as the
/// entry at hand, lies at the same place below both roots.
pub open spec fn tree_wf(t: TreeView, sep: char) -> bool {
    &&& frames_wf(t.frames)
    &&& forall|i: int|
        0 <= i < t.frames.len() ==> parallel(
            t.root_src,
            t.root_dest,
            #[trigger] t.frames[i].src,
            t.frames[i].dest,
            sep,
        )
    &&& parallel(t.root_src, t.root_dest, t.src, t.dest, sep)
}

/// The action a directory copy asks for next, if any.
pub open spec fn tree_action_spec(t: TreeView) -> Option<ActionView> {
    match t.stage {
        TreeStage::Create => Some(act1(ActionKind::CreateDirAll, t.dest)),
        TreeStage::List => Some(act1(ActionKind::ListDir, t.src)),
        TreeStage::Inspect => Some(act1(ActionKind::Probe, t.src)),
        TreeStage::CopyFile => Some(act2(ActionKind::CopyFile, t.src, t.dest)),
        TreeStage::Complete => None,
    }
}

/// Moves on to the next entry not yet taken up, in the innermost directory
/// that has one; the copy is complete when no directory has one left.
pub open spec fn tree_advance_spec(t: TreeView, frames: Seq<FrameView>, sep: char) -> TreeView
    decreases frames.len(),
{
    if frames.len() == 0 {
        TreeView { stage: TreeStage::Complete, frames, ..t }
    } else {
        let top = frames.last();
        if top.next < top.names.len() {
            let n = top.names[top.next as int];
            TreeView {
                stage: TreeStage::Inspect,
                src: join_spec(top.src, n, sep),
                dest: join_spec(top.dest, n, sep),
                frames: frames.update(
                    frames.len() - 1,
                    FrameView { src: top.src, dest: top.dest, names: top.names, next: top.next + 1 },
                ),
                ..t
            }
        } else {
            tree_advance_spec(t, frames.drop_last(), sep)
        }
    }
}

/// The directory copy after the host reports `e`, and the error it ends
/// with, if any.
pub open spec fn tree_step_spec(t: TreeView, e: EventView, sep: char) -> (TreeView, Option<ErrorView>) {
    match (t.stage, e) {
        (TreeStage::Complete, _) => (t, None),
        (_, EventView::Failed(m)) => (t, Some(ErrorView { kind: FsErrorKind::Io, detail: m })),
        (TreeStage::Create, EventView::Done) => (TreeView { stage: TreeStage::List, ..t }, None),
        (TreeStage::List, EventView::Listed(names)) => (
            {
                let pushed = t.frames.push(FrameView { src: t.src, dest: t.dest, names, next: 0 });
                tree_advance_spec(TreeView { frames: pushed, ..t }, pushed, sep)
            },
            None,
        ),
        (TreeStage::Inspect, EventView::Probed(k)) => (
            TreeView {
                stage: if k == PathKind::Dir {
                    TreeStage::Create
                } else {
                    TreeStage::CopyFile
                },
                ..t
            },
            None,
        ),
        (TreeStage::CopyFile, EventView::Done) => (
            tree_advance_spec(t, t.frames, sep),
            None,
        ),
        _ => (t, Some(ErrorView { kind: FsErrorKind::UnexpectedEvent, detail: Seq::empty() })),
    }
}

impl TreeCopy {
    pub open spec fn wf(&self, sep: char) -> bool {
        tree_wf(self@, sep)
    }

    /// A copy of the tree under `src` into `dest`.
    pub fn new(src: &String, dest: &String, sep: char) -> (r: TreeCopy)
        ensures
            r@ == tree_start_spec(src@, dest@),
            r.wf(sep),
    {
        let r = TreeCopy {
            root_src: src.clone(),
            root_dest: dest.clone(),
            stage: TreeStage::Create,
            src: src.clone(),
            dest: dest.clone(),
            frames: Vec::new(),
        };
        assert(r@.frames =~= Seq::<FrameView>::empty());
        assert(path_of(r@.root_src, Seq::empty(), sep) == r@.src);
        r
    }

    /// The action asked for next, or `None` once the copy is complete.
    pub fn next_action(&self) -> (r: Option<FsAction>)
        ensures
            match r {
                Some(a) => tree_action_spec(self@) == Some(a@),
                None => tree_action_spec(self@) is None,
            },
    {
        match self.stage {
            TreeStage::Create => Some(new_act1(ActionKind::CreateDirAll, &self.dest)),
            TreeStage::List => Some(new_act1(ActionKind::ListDir, &self.src)),
            TreeStage::Inspect => Some(new_act1(ActionKind::Probe, &self.src)),
            TreeStage::CopyFile => Some(new_act2(ActionKind::CopyFile, &self.src, &self.dest)),
            TreeStage::Complete => None,
        }
    }

    fn advance(&mut self, sep: char)
        requires
            old(self).wf(sep),
        ensures
            final(self)@ == tree_advance_spec(old(self)@, old(self)@.frames, sep),
            final(self).wf(sep),
    {
        let ghost goal = tree_advance_spec(self@, self@.frames, sep);
        loop
            invariant
                self.wf(sep),
                self@.root_src == old(self)@.root_src,
                self@.root_dest == old(self)@.root_dest,
                self@.src == old(self)@.src,
                self@.dest == old(self)@.dest,
                self@.stage == old(self)@.stage,
                goal == tree_advance_spec(old(self)@, self@.frames, sep),
                goal == tree_advance_spec(old(self)@, old(self)@.frames, sep),
            decreases self.frames.len(),
        {
            if self.frames.len() == 0 {
                assert(self@.frames.len() == 0);
                self.stage = TreeStage::Complete;
                return;
            }
            let ghost before = self@.frames;
            let mut top = self.frames.pop().unwrap();
            assert(self@.frames =~= before.drop_last());
            assert(top@ == before.last());
            proof {
                assert forall|i: int| 0 <= i < self@.frames.len() implies parallel(
                    self@.root_src,
                    self@.root_dest,
                    #[trigger] self@.frames[i].src,
                    self@.frames[i].dest,
                    sep,
                ) by {
                    assert(self@.frames[i] == before[i]);
                    assert(parallel(old(self)@.root_src, old(self)@.root_dest, before[i].src, before[i].dest, sep));
                }
            }
            if top.next < top.names.len() {
                assert(parallel(self@.root_src, self@.root_dest, top@.src, top@.dest, sep));
                let ghost c = choose|c: Seq<Seq<char>>|
                    #[trigger] path_of(self@.root_src, c, sep) == top@.src && path_of(
                        self@.root_dest,
                        c,
                        sep,
                    ) == top@.dest;
                let ghost n = top@.names[top@.next as int];
                proof {
                    assert(parallel(self@.root_src, self@.root_dest, before.last().src, before.last().dest, sep));
                    assert(c.push(n).drop_last() =~= c);
                    assert(path_of(self@.root_src, c.push(n), sep) == join_spec(top@.src, n, sep));
                    assert(path_of(self@.root_dest, c.push(n), sep) == join_spec(top@.dest, n, sep));
                }
                let src = join_path(top.src.as_str(), top.names[top.next].as_str(), sep);
                let dest = join_path(top.dest.as_str(), top.names[top.next].as_str(), sep);
                top.next = top.next + 1;
                self.frames.push(top);
                self.src = src;
                self.dest = dest;
                self.stage = TreeStage::Inspect;
                assert(self@.frames =~= before.update(before.len() - 1, top@));
                proof {
                    assert(parallel(self@.root_src, self@.root_dest, self@.src, self@.dest, sep));
                    assert forall|i: int| 0 <= i < self@.frames.len() implies parallel(
                        self@.root_src,
                        self@.root_dest,
                        #[trigger] self@.frames[i].src,
                        self@.frames[i].dest,
                        sep,
                    ) by {
                        assert(parallel(old(self)@.root_src, old(self)@.root_dest, before[i].src, before[i].dest, sep));
                    }
                }
                return;
            }
        }
    }

    /// Takes in what the host reports; returns the error the copy ends with,
    /// if any.
    pub fn handle(&mut self, ev: FsEvent, sep: char) -> (r: Option<FsError>)
        requires
            old(self).wf(sep),
        ensures
            final(self).wf(sep),
            (final(self)@, match r {
                Some(e) => Some(e@),
                None => None,
            }) == tree_step_spec(old(self)@, ev@, sep),
    {
        match (self.stage, ev) {
            (TreeStage::Complete, _) => None,
            (_, FsEvent::Failed(m)) => Some(FsError { kind: FsErrorKind::Io, detail: m }),
            (TreeStage::Create, FsEvent::Done) => {
                self.stage = TreeStage::List;
                None
            },
            (TreeStage::List, FsEvent::Listed(names)) => {
                let ghost before = self@.frames;
                let frame = CopyFrame {
                    src: self.src.clone(),
                    dest: self.dest.clone(),
                    names,
                    next: 0,
                };
                self.frames.push(frame);
                assert(self@.frames =~= before.push(frame@));
                proof {
                    assert forall|i: int| 0 <= i < self@.frames.len() implies parallel(
                        self@.root_src,
                        self@.root_dest,
                        #[trigger] self@.frames[i].src,
                        self@.frames[i].dest,
                        sep,
                    ) by {
                        if i < before.len() {
                            assert(parallel(old(self)@.root_src, old(self)@.root_dest, before[i].src, before[i].dest, sep));
                        } else {
                            assert(parallel(old(self)@.root_src, old(self)@.root_dest, old(self)@.src, old(self)@.dest, sep));
                        }
                    }
                }
                self.advance(sep);
                None
            },
            (TreeStage::Inspect, FsEvent::Probed(k)) => {
                self.stage = if k == PathKind::Dir {
                    TreeStage::Create
                } else {
                    TreeStage::CopyFile
                };
                None
            },
            (TreeStage::CopyFile, FsEvent::Done) => {
                self.advance(sep);
                None
            },
            _ => Some(FsError { kind: FsErrorKind::UnexpectedEvent, detail: String::new() }),
        }
    }
}

// ---------------------------------------------------------------------------
// Operations
// ---------------------------------------------------------------------------

/// The five operations.
#[derive(Clone, Copy, Debug, PartialEq, Eq, Structural)]
pub enum OpKind {
    CreateFolder,
    Rename,
    Delete,
    Copy,
    Move,
}

/// Where an operation stands.
#[derive(Clone, Copy, Debug, PartialEq, Eq, Structural)]
pub enum Stage {
    /// Probe `source`.
    CheckSource,
    /// Probe `target`, which must not exist.
    CheckTarget,
    /// Probe the current numbered candidate `target` (copy).
    Resolve,
    /// Create the folder `source`, or rename `source` to `target`.
    Mutate,
    /// Copy `source` to `target`, a file at once or a directory tree.
    Transfer,
    /// Remove `source`.
    RemoveSource,
    /// Done: `failure` tells how, `detail` holds the resulting path or the
    /// error's detail.
    Finished,
}

/// One file operation in progress. `source` is the path acted on (the new
/// folder's path for a create), `target` where it goes, `dest_dir` the
/// destination directory of a copy or move, and `name` the new folder's name,
/// the new name of a rename, or the source's file name for a copy or move.
pub struct FileOp {
    pub kind: OpKind,
    pub stage: Stage,
    pub sep: char,
    pub is_dir: bool,
    pub attempt: u32,
    pub source: String,
    pub target: String,
    pub dest_dir: String,
    pub name: String,
    pub has_target: bool,
    pub tree: TreeCopy,
    pub failure: Option<FsErrorKind>,
    pub detail: String,
}

pub struct OpView {
    pub kind: OpKind,
    pub stage: Stage,
    pub sep: char,
    pub is_dir: bool,
    pub attempt: nat,
    pub source: Seq<char>,
    pub target: Seq<char>,
    pub dest_dir: Seq<char>,
    pub name: Seq<char>,
    pub has_target: bool,
    pub tree: TreeView,
    pub failure: Option<FsErrorKind>,
    pub detail: Seq<char>,
}

impl View for FileOp {
    type V = OpView;

    open spec fn view(&self) -> OpView {
        OpView {
            kind: self.kind,
            stage: self.stage,
            sep: self.sep,
            is_dir: self.is_dir,
            attempt: self.attempt as nat,
            source: self.source@,
            target: self.target@,
            dest_dir: self.dest_dir@,
            name: self.name@,
            has_target: self.has_target,
            tree: self.tree@,
            failure: self.failure,
            detail: self.detail@,
        }
    }
}

/// An operation about to start.
pub open spec fn op_init_spec(
    kind: OpKind,
    sep: char,
    source: Seq<char>,
    target: Seq<char>,
    dest_dir: Seq<char>,
    name: Seq<char>,
    has_target: bool,
) -> OpView {
    OpView {
        kind,
        stage: Stage::CheckSource,
        sep,
        is_dir: false,
        attempt: 0,
        source,
        target,
        dest_dir,
        name,
        has_target,
        tree: tree_start_spec(Seq::empty(), Seq::empty()),
        failure: None,
        detail: Seq::empty(),
    }
}

pub open spec fn with_stage(s: OpView, stage: Stage) -> OpView {
    OpView { stage, ..s }
}

/// The operation finished: with `failure` None it succeeded and `detail` is
/// the resulting path.
pub open spec fn finish_spec(s: OpView, failure: Option<FsErrorKind>, detail: Seq<char>) -> OpView {
    OpView { stage: Stage::Finished, failure, detail, ..s }
}

pub open spec fn unexpected_spec(s: OpView) -> OpView {
    finish_spec(s, Some(FsErrorKind::UnexpectedEvent), Seq::empty())
}

/// The copy of `source` to `target` begins.
pub open spec fn start_transfer_spec(s: OpView) -> OpView {
    OpView { stage: Stage::Transfer, tree: tree_start_spec(s.source, s.target), ..s }
}

/// The copy is over: a move goes on to remove its source, a copy is done.
pub open spec fn after_transfer_spec(s: OpView) -> OpView {
    if s.kind == OpKind::Move {
        with_stage(s, Stage::RemoveSource)
    } else {
        finish_spec(s, None, s.target)
    }
}

pub open spec fn remove_kind(is_dir: bool) -> ActionKind {
    if is_dir {
        ActionKind::RemoveDirAll
    } else {
        ActionKind::RemoveFile
    }
}

/// The source was found, of kind `k` (not `Missing`).
pub open spec fn found_source_spec(s: OpView, k: PathKind) -> OpView {
    let is_dir = k == PathKind::Dir;
    match s.kind {
        OpKind::CreateFolder => finish_spec(s, Some(FsErrorKind::AlreadyExists), s.name),
        OpKind::Rename => if s.has_target {
            with_stage(s, Stage::CheckTarget)
        } else {
            finish_spec(s, Some(FsErrorKind::InvalidPath), s.source)
        },
        OpKind::Delete => OpView { is_dir, stage: Stage::RemoveSource, ..s },
        OpKind::Copy => OpView {
            is_dir,
            stage: Stage::Resolve,
            attempt: 0,
            target: candidate_spec(s.dest_dir, s.name, is_dir, s.sep, 0),
            ..s
        },
        OpKind::Move => OpView { is_dir, stage: Stage::CheckTarget, ..s },
    }
}

/// The action an operation asks for next; none once it is finished.
pub open spec fn op_action_spec(s: OpView) -> Option<ActionView> {
    match s.stage {
        Stage::CheckSource => Some(act1(ActionKind::Probe, s.source)),
        Stage::CheckTarget => Some(act1(ActionKind::Probe, s.target)),
        Stage::Resolve => Some(act1(ActionKind::Probe, s.target)),
        Stage::Mutate => if s.kind == OpKind::CreateFolder {
            Some(act1(ActionKind::CreateDir, s.source))
        } else {
            Some(act2(ActionKind::Rename, s.source, s.target))
        },
        Stage::Transfer => if s.is_dir {
            tree_action_spec(s.tree)
        } else {
            Some(act2(ActionKind::CopyFile, s.source, s.target))
        },
        Stage::RemoveSource => Some(act1(remove_kind(s.is_dir), s.source)),
        Stage::Finished => None,
    }
}

/// The operation after the host reports `e` on the action asked for.
pub open spec fn op_step_spec(s: OpView, e: EventView) -> OpView {
    match s.stage {
        Stage::Finished => s,
        Stage::CheckSource => match e {
            EventView::Probed(k) => if k == PathKind::Missing {
                if s.kind == OpKind::CreateFolder {
                    with_stage(s, Stage::Mutate)
                } else {
                    finish_spec(s, Some(FsErrorKind::NotFound), s.source)
                }
            } else {
                found_source_spec(s, k)
            },
            _ => unexpected_spec(s),
        },
        Stage::CheckTarget => match e {
            EventView::Probed(k) => if k == PathKind::Missing {
                with_stage(s, Stage::Mutate)
            } else {
                finish_spec(
                    s,
                    Some(FsErrorKind::AlreadyExists),
                    if s.kind == OpKind::Rename {
                        s.name
                    } else {
                        s.target
                    },
                )
            },
            _ => unexpected_spec(s),
        },
        Stage::Resolve => match e {
            EventView::Probed(k) => if k == PathKind::Missing || s.attempt >= MAX_ATTEMPTS {
                start_transfer_spec(s)
            } else {
                OpView {
                    attempt: s.attempt + 1,
                    target: candidate_spec(s.dest_dir, s.name, s.is_dir, s.sep, s.attempt + 1),
                    ..s
                }
            },
            _ => unexpected_spec(s),
        },
        Stage::Mutate => match e {
            EventView::Done => finish_spec(
                s,
                None,
                if s.kind == OpKind::CreateFolder {
                    s.source
                } else {
                    s.target
                },
            ),
            EventView::Failed(m) => if s.kind == OpKind::Move {
                start_transfer_spec(s)
            } else {
                finish_spec(s, Some(FsErrorKind::Io), m)
            },
            _ => unexpected_spec(s),
        },
        Stage::Transfer => if s.is_dir {
            let (t, err) = tree_step_spec(s.tree, e, s.sep);
            let s2 = OpView { tree: t, ..s };
            match err {
                Some(x) => finish_spec(s2, Some(x.kind), x.detail),
                None => if t.stage == TreeStage::Complete {
                    after_transfer_spec(s2)
                } else {
                    s2
                },
            }
        } else {
            match e {
                EventView::Done => after_transfer_spec(s),
                EventView::Failed(m) => finish_spec(s, Some(FsErrorKind::Io), m),
                _ => unexpected_spec(s),
            }
        },
        Stage::RemoveSource => match e {
            EventView::Done => finish_spec(
                s,
                None,
                if s.kind == OpKind::Move {
                    s.target
                } else {
                    s.source
                },
            ),
            EventView::Failed(m) => finish_spec(
                s,
                Some(
                    if s.kind == OpKind::Move {
                        FsErrorKind::Duplicated
                    } else {
                        FsErrorKind::Io
                    },
                ),
                m,
            ),
            _ => unexpected_spec(s),
        },
    }
}

/// Creating the folder `name` in `dir`.
pub open spec fn create_folder_spec(dir: Seq<char>, name: Seq<char>, sep: char) -> OpView {
    op_init_spec(OpKind::CreateFolder, sep, join_spec(dir, name, sep), Seq::empty(), dir, name, false)
}

/// Renaming `old_path` to `new_name` in the same directory.
pub open spec fn rename_spec(old_path: Seq<char>, new_name: Seq<char>, sep: char) -> OpView {
    match sibling_spec(old_path, new_name, sep) {
        Some(t) => op_init_spec(OpKind::Rename, sep, old_path, t, Seq::empty(), new_name, true),
        None => op_init_spec(OpKind::Rename, sep, old_path, Seq::empty(), Seq::empty(), new_name, false),
    }
}

/// Deleting `path`.
pub open spec fn delete_spec(path: Seq<char>, sep: char) -> OpView {
    op_init_spec(OpKind::Delete, sep, path, Seq::empty(), Seq::empty(), Seq::empty(), false)
}

/// Copying `source` into the directory `dest_dir`.
pub open spec fn copy_spec(source: Seq<char>, dest_dir: Seq<char>, sep: char) -> OpView {
    match file_name_spec(source, sep) {
        Some(n) => op_init_spec(OpKind::Copy, sep, source, Seq::empty(), dest_dir, n, false),
        None => finish_spec(
            op_init_spec(OpKind::Copy, sep, source, Seq::empty(), dest_dir, Seq::empty(), false),
            Some(FsErrorKind::InvalidPath),
            source,
        ),
    }
}

/// Moving `source` into the directory `dest_dir`.
pub open spec fn move_spec(source: Seq<char>, dest_dir: Seq<char>, sep: char) -> OpView {
    match file_name_spec(source, sep) {
        Some(n) => op_init_spec(OpKind::Move, sep, source, join_spec(dest_dir, n, sep), dest_dir, n, true),
        None => finish_spec(
            op_init_spec(OpKind::Move, sep, source, Seq::empty(), dest_dir, Seq::empty(), false),
            Some(FsErrorKind::InvalidPath),
            source,
        ),
    }
}

/// The result of a finished operation: the resulting path, or the error.
pub open spec fn outcome_spec(s: OpView) -> Option<Result<Seq<char>, ErrorView>> {
    if s.stage != Stage::Finished {
        None
    } else {
        match s.failure {
            None => Some(Ok(s.detail)),
            Some(k) => Some(Err(ErrorView { kind: k, detail: s.detail })),
        }
    }
}

impl FileOp {
    pub open spec fn wf(&self) -> bool {
        self.attempt <= MAX_ATTEMPTS && self.tree.wf(self.sep)
    }

    fn init(
        kind: OpKind,
        sep: char,
        source: String,
        target: String,
        dest_dir: String,
        name: String,
        has_target: bool,
    ) -> (r: FileOp)
        ensures
            r@ == op_init_spec(kind, sep, source@, target@, dest_dir@, name@, has_target),
            r.wf(),
    {
        let empty = String::new();
        FileOp {
            kind,
            stage: Stage::CheckSource,
            sep,
            is_dir: false,
            attempt: 0,
            source,
            target,
            dest_dir,
            name,
            has_target,
            tree: TreeCopy::new(&empty, &empty, sep),
            failure: None,
            detail: String::new(),
        }
    }

    fn finish(&mut self, failure: Option<FsErrorKind>, detail: String)
        ensures
            final(self)@ == finish_spec(old(self)@, failure, detail@),
            final(self).tree == old(self).tree,
            final(self).attempt == old(self).attempt,
    {
        self.stage = Stage::Finished;
        self.failure = failure;
        self.detail = detail;
    }

    fn start_transfer(&mut self)
        ensures
            final(self)@ == start_transfer_spec(old(self)@),
            final(self).tree.wf(final(self).sep),
            final(self).attempt == old(self).attempt,
    {
        self.stage = Stage::Transfer;
        self.tree = TreeCopy::new(&self.source, &self.target, self.sep);
    }

    fn after_transfer(&mut self)
        ensures
            final(self)@ == after_transfer_spec(old(self)@),
            final(self).tree == old(self).tree,
            final(self).attempt == old(self).attempt,
    {
        if self.kind == OpKind::Move {
            self.stage = Stage::RemoveSource;
        } else {
            let t = self.target.clone();
            self.finish(None, t);
        }
    }

    /// The `k`-th candidate path of a copy.
    fn candidate(&self, k: u32) -> (r: String)
        ensures
            r@ == candidate_spec(self.dest_dir@, self.name@, self.is_dir, self.sep, k as nat),
    {
        let (stem, ext) = split_name(self.name.as_str(), self.is_dir);
        let n = numbered_name(stem.as_str(), ext.as_str(), self.name.as_str(), self.is_dir, k);
        join_path(self.dest_dir.as_str(), n.as_str(), self.sep)
    }

    /// Creates the folder `name` inside `dir`; fails when it already exists.
    pub fn create_folder(dir: &str, name: &str, sep: char) -> (r: FileOp)
        ensures
            r@ == create_folder_spec(dir@, name@, sep),
            r.wf(),
    {
        let path = join_path(dir, name, sep);
        FileOp::init(
            OpKind::CreateFolder,
            sep,
            path,
            String::new(),
            String::from_str(dir),
            String::from_str(name),
            false,
        )
    }

    /// Renames `old_path` to `new_name` within its directory; fails when the
    /// source is missing or the new name is taken.
    pub fn rename_item(old_path: &str, new_name: &str, sep: char) -> (r: FileOp)
        ensures
            r@ == rename_spec(old_path@, new_name@, sep),
            r.wf(),
    {
        match sibling_path(old_path, new_name, sep) {
            Some(t) => FileOp::init(
                OpKind::Rename,
                sep,
                String::from_str(old_path),
                t,
                String::new(),
                String::from_str(new_name),
                true,
            ),
            None => FileOp::init(
                OpKind::Rename,
                sep,
                String::from_str(old_path),
                String::new(),
                String::new(),
                String::from_str(new_name),
                false,
            ),
        }
    }

    /// Deletes `path`, a directory with all it holds; fails when missing.
    pub fn delete_item(path: &str, sep: char) -> (r: FileOp)
        ensures
            r@ == delete_spec(path@, sep),
            r.wf(),
    {
        FileOp::init(
            OpKind::Delete,
            sep,
            String::from_str(path),
            String::new(),
            String::new(),
            String::new(),
            false,
        )
    }

    /// Copies `source` into the directory `destination` under a name that
    /// is free there.
    pub fn copy_item(source: &str, destination: &str, sep: char) -> (r: FileOp)
        ensures
            r@ == copy_spec(source@, destination@, sep),
            r.wf(),
    {
        match file_name(source, sep) {
            Some(n) => FileOp::init(
                OpKind::Copy,
                sep,
                String::from_str(source),
                String::new(),
                String::from_str(destination),
                n,
                false,
            ),
            None => {
                let mut op = FileOp::init(
                    OpKind::Copy,
                    sep,
                    String::from_str(source),
                    String::new(),
                    String::from_str(destination),
                    String::new(),
                    false,
                );
                op.finish(Some(FsErrorKind::InvalidPath), String::from_str(source));
                op
            },
        }
    }

    /// Moves `source` into the directory `destination`: a rename, or a copy
    /// followed by removing the source when the rename fails.
    pub fn move_item(source: &str, destination: &str, sep: char) -> (r: FileOp)
        ensures
            r@ == move_spec(source@, destination@, sep),
            r.wf(),
    {
        match file_name(source, sep) {
            Some(n) => {
                let t = join_path(destination, n.as_str(), sep);
                FileOp::init(
                    OpKind::Move,
                    sep,
                    String::from_str(source),
                    t,
                    String::from_str(destination),
                    n,
                    true,
                )
            },
            None => {
                let mut op = FileOp::init(
                    OpKind::Move,
                    sep,
                    String::from_str(source),
                    String::new(),
                    String::from_str(destination),
                    String::new(),
                    false,
                );
                op.finish(Some(FsErrorKind::InvalidPath), String::from_str(source));
                op
            },
        }
    }

    /// The action to perform next, or `None` once the operation is finished.
    pub fn next_action(&self) -> (r: Option<FsAction>)
        ensures
            match r {
                Some(a) => op_action_spec(self@) == Some(a@),
                None => op_action_spec(self@) is None,
            },
    {
        match self.stage {
            Stage::CheckSource => Some(new_act1(ActionKind::Probe, &self.source)),
            Stage::CheckTarget => Some(new_act1(ActionKind::Probe, &self.target)),
            Stage::Resolve => Some(new_act1(ActionKind::Probe, &self.target)),
            Stage::Mutate => if self.kind == OpKind::CreateFolder {
                Some(new_act1(ActionKind::CreateDir, &self.source))
            } else {
                Some(new_act2(ActionKind::Rename, &self.source, &self.target))
            },
            Stage::Transfer => if self.is_dir {
                self.tree.next_action()
            } else {
                Some(new_act2(ActionKind::CopyFile, &self.source, &self.target))
            },
            Stage::RemoveSource => {
                let k = if self.is_dir {
                    ActionKind::RemoveDirAll
                } else {
                    ActionKind::RemoveFile
                };
                Some(new_act1(k, &self.source))
            },
            Stage::Finished => None,
        }
    }

    /// Takes in what the host reports on the action asked for.
    pub fn handle(&mut self, ev: FsEvent)
        requires
            old(self).wf(),
        ensures
            final(self)@ == op_step_spec(old(self)@, ev@),
            final(self).wf(),
    {
        match self.stage {
            Stage::Finished => {},
            Stage::CheckSource => match ev {
                FsEvent::Probed(k) => {
                    if k == PathKind::Missing {
                        if self.kind == OpKind::CreateFolder {
                            self.stage = Stage::Mutate;
                        } else {
                            let d = self.source.clone();
                            self.finish(Some(FsErrorKind::NotFound), d);
                        }
                    } else {
                        let is_dir = k == PathKind::Dir;
                        match self.kind {
                            OpKind::CreateFolder => {
                                let d = self.name.clone();
                                self.finish(Some(FsErrorKind::AlreadyExists), d);
                            },
                            OpKind::Rename => {
                                if self.has_target {
                                    self.stage = Stage::CheckTarget;
                                } else {
                                    let d = self.source.clone();
                                    self.finish(Some(FsErrorKind::InvalidPath), d);
                                }
                            },
                            OpKind::Delete => {
                                self.is_dir = is_dir;
                                self.stage = Stage::RemoveSource;
                            },
                            OpKind::Copy => {
                                self.is_dir = is_dir;
                                self.stage = Stage::Resolve;
                                self.attempt = 0;
                                self.target = self.candidate(0);
                            },
                            OpKind::Move => {
                                self.is_dir = is_dir;
                                self.stage = Stage::CheckTarget;
                            },
                        }
                    }
                },
                _ => self.finish(Some(FsErrorKind::UnexpectedEvent), String::new()),
            },
            Stage::CheckTarget => match ev {
                FsEvent::Probed(k) => {
                    if k == PathKind::Missing {
                        self.stage = Stage::Mutate;
                    } else {
                        let d = if self.kind == OpKind::Rename {
                            self.name.clone()
                        } else {
                            self.target.clone()
                        };
                        self.finish(Some(FsErrorKind::AlreadyExists), d);
                    }
                },
                _ => self.finish(Some(FsErrorKind::UnexpectedEvent), String::new()),
            },
            Stage::Resolve => match ev {
                FsEvent::Probed(k) => {
                    if k == PathKind::Missing || self.attempt >= MAX_ATTEMPTS {
                        self.start_transfer();
                    } else {
                        self.attempt = self.attempt + 1;
                        self.target = self.candidate(self.attempt);
                    }
                },
                _ => self.finish(Some(FsErrorKind::UnexpectedEvent), String::new()),
            },
            Stage::Mutate => match ev {
                FsEvent::Done => {
                    let d = if self.kind == OpKind::CreateFolder {
                        self.source.clone()
                    } else {
                        self.target.clone()
                    };
                    self.finish(None, d);
                },
                FsEvent::Failed(m) => {
                    if self.kind == OpKind::Move {
                        self.start_transfer();
                    } else {
                        self.finish(Some(FsErrorKind::Io), m);
                    }
                },
                _ => self.finish(Some(FsErrorKind::UnexpectedEvent), String::new()),
            },
            Stage::Transfer => {
                if self.is_dir {
                    let err = self.tree.handle(ev, self.sep);
                    match err {
                        Some(x) => self.finish(Some(x.kind), x.detail),
                        None => {
                            if self.tree.stage == TreeStage::Complete {
                                self.after_transfer();
                            }
                        },
                    }
                } else {
                    match ev {
                        FsEvent::Done => self.after_transfer(),
                        FsEvent::Failed(m) => self.finish(Some(FsErrorKind::Io), m),
                        _ => self.finish(Some(FsErrorKind::UnexpectedEvent), String::new()),
                    }
                }
            },
            Stage::RemoveSource => match ev {
                FsEvent::Done => {
                    let d = if self.kind == OpKind::Move {
                        self.target.clone()
                    } else {
                        self.source.clone()
                    };
                    self.finish(None, d);
                },
                FsEvent::Failed(m) => {
                    let k = if self.kind == OpKind::Move {
                        FsErrorKind::Duplicated
                    } else {
                        FsErrorKind::Io
                    };
                    self.finish(Some(k), m);
                },
                _ => self.finish(Some(FsErrorKind::UnexpectedEvent), String::new()),
            },
        }
    }

    /// The result once finished: the resulting path (for a delete, the path
    /// deleted), or the error.
    pub fn outcome(&self) -> (r: Option<Result<String, FsError>>)
        ensures
            match r {
                None => outcome_spec(self@) is None,
                Some(Ok(p)) => outcome_spec(self@) == Some(Ok::<Seq<char>, ErrorView>(p@)),
                Some(Err(e)) => outcome_spec(self@) == Some(Err::<Seq<char>, ErrorView>(e@)),
            },
    {
        if self.stage != Stage::Finished {
            return None;
        }
        match self.failure {
            None => Some(Ok(self.detail.clone())),
            Some(k) => Some(Err(FsError { kind: k, detail: self.detail.clone() })),
        }
    }
}

// ---------------------------------------------------------------------------
// Laws
// ---------------------------------------------------------------------------

/// Renaming onto a name that is taken asks for two probes and nothing else,
/// and ends with `AlreadyExists` naming the new name: neither the item nor
/// the one in the way is touched.
pub proof fn lemma_rename_onto_taken_name(
    old_path: Seq<char>,
    new_name: Seq<char>,
    sep: char,
    src_kind: PathKind,
    dest_kind: PathKind,
)
    requires
        src_kind != PathKind::Missing,
        dest_kind != PathKind::Missing,
        sibling_spec(old_path, new_name, sep) is Some,
    ensures
        ({
            let s0 = rename_spec(old_path, new_name, sep);
            let s1 = op_step_spec(s0, EventView::Probed(src_kind));
            let s2 = op_step_spec(s1, EventView::Probed(dest_kind));
            &&& op_action_spec(s0) == Some(act1(ActionKind::Probe, old_path))
            &&& op_action_spec(s1) == Some(
                act1(ActionKind::Probe, sibling_spec(old_path, new_name, sep).unwrap()),
            )
            &&& op_action_spec(s2) is None
            &&& outcome_spec(s2) == Some(
                Err::<Seq<char>, ErrorView>(
                    ErrorView { kind: FsErrorKind::AlreadyExists, detail: new_name },
                ),
            )
        }),
{
}

/// A move whose rename succeeds is that rename alone: after probing the
/// source and the free destination it asks for the rename and, once it is
/// done, finishes with the destination path, asking for no copy and no
/// removal.
pub proof fn lemma_move_by_rename(source: Seq<char>, dest_dir: Seq<char>, sep: char, src_kind: PathKind)
    requires
        src_kind != PathKind::Missing,
        file_name_spec(source, sep) is Some,
    ensures
        ({
            let dest = join_spec(dest_dir, file_name_spec(source, sep).unwrap(), sep);
            let s0 = move_spec(source, dest_dir, sep);
            let s1 = op_step_spec(s0, EventView::Probed(src_kind));
            let s2 = op_step_spec(s1, EventView::Probed(PathKind::Missing));
            let s3 = op_step_spec(s2, EventView::Done);
            &&& op_action_spec(s0) == Some(act1(ActionKind::Probe, source))
            &&& op_action_spec(s1) == Some(act1(ActionKind::Probe, dest))
            &&& op_action_spec(s2) == Some(act2(ActionKind::Rename, source, dest))
            &&& op_action_spec(s3) is None
            &&& outcome_spec(s3) == Some(Ok::<Seq<char>, ErrorView>(dest))
        }),
{
}

/// Deleting a missing path ends at once with `NotFound` naming it.
pub proof fn lemma_delete_missing(path: Seq<char>, sep: char)
    ensures
        ({
            let s1 = op_step_spec(delete_spec(path, sep), EventView::Probed(PathKind::Missing));
            &&& op_action_spec(s1) is None
            &&& outcome_spec(s1) == Some(
                Err::<Seq<char>, ErrorView>(ErrorView { kind: FsErrorKind::NotFound, detail: path }),
            )
        }),
{
}

/// Deleting an existing directory asks to remove it with all it holds and,
/// once that is done, succeeds.
pub proof fn lemma_delete_directory(path: Seq<char>, sep: char)
    ensures
        ({
            let s1 = op_step_spec(delete_spec(path, sep), EventView::Probed(PathKind::Dir));
            let s2 = op_step_spec(s1, EventView::Done);
            &&& op_action_spec(s1) == Some(act1(ActionKind::RemoveDirAll, path))
            &&& op_action_spec(s2) is None
            &&& outcome_spec(s2) == Some(Ok::<Seq<char>, ErrorView>(path))
        }),
{
}

/// A copy names its destination as the resolver does: when the probes of
/// its numbered candidates agree with the set `taken` of existing paths, the
/// copy goes to `resolved_spec` of that set.
pub proof fn lemma_copy_target_is_resolved(s: OpView, taken: Set<Seq<char>>, k: PathKind)
    requires
        s.kind == OpKind::Copy,
        s.stage == Stage::Resolve,
        s.attempt <= MAX_ATTEMPTS,
        s.target == candidate_spec(s.dest_dir, s.name, s.is_dir, s.sep, s.attempt),
        forall|j: nat|
            j < s.attempt ==> taken.contains(#[trigger] candidate_spec(s.dest_dir, s.name, s.is_dir, s.sep, j)),
        (k == PathKind::Missing) == !taken.contains(s.target),
        k == PathKind::Missing || s.attempt == MAX_ATTEMPTS,
    ensures
        op_step_spec(s, EventView::Probed(k)).stage == Stage::Transfer,
        op_step_spec(s, EventView::Probed(k)).target == resolved_spec(
            s.dest_dir,
            s.name,
            s.is_dir,
            s.sep,
            taken,
        ),
{
    lemma_first_free_is(s.dest_dir, s.name, s.is_dir, s.sep, taken, 0, s.attempt);
}

/// While the candidate probed is taken, a copy moves on to the next numbered
/// candidate.
pub proof fn lemma_copy_tries_next_candidate(s: OpView, k: PathKind)
    requires
        s.kind == OpKind::Copy,
        s.stage == Stage::Resolve,
        s.attempt < MAX_ATTEMPTS,
        k != PathKind::Missing,
    ensures
        op_step_spec(s, EventView::Probed(k)).stage == Stage::Resolve,
        op_step_spec(s, EventView::Probed(k)).attempt == s.attempt + 1,
        op_step_spec(s, EventView::Probed(k)).target == candidate_spec(
            s.dest_dir,
            s.name,
            s.is_dir,
            s.sep,
            s.attempt + 1,
        ),
{
}

/// A directory copy keeps the tree's structure: every file it copies, and
/// every directory it creates, lies at the same place below the destination
/// root as its source lies below the source root. `TreeCopy::handle` keeps
/// this true at every step.
pub proof fn lemma_tree_copy_keeps_structure(t: TreeView, sep: char)
    requires
        tree_wf(t, sep),
    ensures
        t.stage == TreeStage::CopyFile ==> tree_action_spec(t) == Some(
            act2(ActionKind::CopyFile, t.src, t.dest),
        ) && parallel(t.root_src, t.root_dest, t.src, t.dest, sep),
        t.stage == TreeStage::Create ==> tree_action_spec(t) == Some(
            act1(ActionKind::CreateDirAll, t.dest),
        ) && parallel(t.root_src, t.root_dest, t.src, t.dest, sep),
{
}

/// Copying a file next to one of the same name asks for three probes (the
/// source, the name, its first numbered form) and one file copy to the
/// numbered form, and ends with that path: it asks for nothing that writes
/// to the source or to the file already there.
pub proof fn lemma_copy_beside_taken_name(source: Seq<char>, dest_dir: Seq<char>, sep: char)
    requires
        file_name_spec(source, sep) is Some,
    ensures
        ({
            let n = file_name_spec(source, sep).unwrap();
            let taken = join_spec(dest_dir, n, sep);
            let numbered = candidate_spec(dest_dir, n, false, sep, 1);
            let s0 = copy_spec(source, dest_dir, sep);
            let s1 = op_step_spec(s0, EventView::Probed(PathKind::File));
            let s2 = op_step_spec(s1, EventView::Probed(PathKind::File));
            let s3 = op_step_spec(s2, EventView::Probed(PathKind::Missing));
            let s4 = op_step_spec(s3, EventView::Done);
            &&& op_action_spec(s0) == Some(act1(ActionKind::Probe, source))
            &&& op_action_spec(s1) == Some(act1(ActionKind::Probe, taken))
            &&& op_action_spec(s2) == Some(act1(ActionKind::Probe, numbered))
            &&& op_action_spec(s3) == Some(act2(ActionKind::CopyFile, source, numbered))
            &&& op_action_spec(s4) is None
            &&& outcome_spec(s4) == Some(Ok::<Seq<char>, ErrorView>(numbered))
        }),
{
    let n = file_name_spec(source, sep).unwrap();
    assert(candidate_spec(dest_dir, n, false, sep, 0) == join_spec(dest_dir, n, sep));
}

} // verus!
