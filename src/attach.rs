//! Attaching to existing disk images.
//!
//! An [`Attach`] builder collects the options of an attach and renders the
//! utility's arguments. What the utility answers is turned into a [`Handle`],
//! which is released by consuming it, or a [`With`], which is released when it
//! goes out of scope.

use vstd::prelude::*;
use crate::command::{check_exit, exit_outcome, CommandOutput, Error, ErrorView};
use crate::response::{decode_response, decoded_response, Info};

verus! {

/// How the utility is told to choose a mount directory.
#[derive(Debug, Clone)]
enum Mount {
    Default,
    Random(String),
    Root(String),
    Point(String),
}

/// A mount strategy, with its directory as a sequence of characters.
pub enum MountView {
    /// Under `/Volumes`, as the utility chooses.
    Default,
    /// In a directory of random name under the given one.
    Random(Seq<char>),
    /// In subdirectories of the given directory.
    Root(Seq<char>),
    /// At exactly the given directory.
    Point(Seq<char>),
}

impl View for Mount {
    type V = MountView;

    closed spec fn view(&self) -> MountView {
        match self {
            Mount::Default => MountView::Default,
            Mount::Random(p) => MountView::Random(p@),
            Mount::Root(p) => MountView::Root(p@),
            Mount::Point(p) => MountView::Point(p@),
        }
    }
}

/// Builder to attach a disk image.
#[derive(Debug, Clone)]
pub struct Attach {
    image: String,
    mount: Mount,
    hidden: bool,
    force_readonly: bool,
}

/// The options of an attach.
pub struct AttachView {
    pub image: Seq<char>,
    pub mount: MountView,
    pub hidden: bool,
    pub force_readonly: bool,
}

impl View for Attach {
    type V = AttachView;

    closed spec fn view(&self) -> AttachView {
        AttachView {
            image: self.image@,
            mount: self.mount@,
            hidden: self.hidden,
            force_readonly: self.force_readonly,
        }
    }
}

/// The arguments that name a mount strategy.
pub open spec fn mount_args(m: MountView) -> Seq<Seq<char>> {
    match m {
        MountView::Default => seq![],
        MountView::Random(p) => seq!["-mountrandom"@, p],
        MountView::Root(p) => seq!["-mountroot"@, p],
        MountView::Point(p) => seq!["-mountpoint"@, p],
    }
}

/// The utility's arguments for an attach:
/// `attach [mount-flag dir] [-readonly] [-nobrowse] -plist <image>`.
pub open spec fn attach_args(a: AttachView) -> Seq<Seq<char>> {
    seq!["attach"@] + mount_args(a.mount) + (if a.force_readonly {
        seq!["-readonly"@]
    } else {
        seq![]
    }) + (if a.hidden {
        seq!["-nobrowse"@]
    } else {
        seq![]
    }) + seq!["-plist"@, a.image]
}

/// The mount strategy that a mount flag names with the directory after it.
pub open spec fn mount_flag(flag: Seq<char>, dir: Seq<char>) -> Option<MountView> {
    if flag == "-mountrandom"@ {
        Some(MountView::Random(dir))
    } else if flag == "-mountroot"@ {
        Some(MountView::Root(dir))
    } else if flag == "-mountpoint"@ {
        Some(MountView::Point(dir))
    } else {
        None
    }
}

/// The mount strategies that the arguments from index `i` on name, read back in
/// order: a mount flag takes the next argument as its directory, `-plist` takes
/// the next as the image, and any other argument stands alone.
pub open spec fn mounts_named(args: Seq<Seq<char>>, i: int) -> Seq<MountView>
    decreases args.len() - i,
{
    if i < 0 || i >= args.len() {
        seq![]
    } else if i + 1 < args.len() && mount_flag(args[i], args[i + 1]) is Some {
        seq![mount_flag(args[i], args[i + 1]).unwrap()] + mounts_named(args, i + 2)
    } else if i + 1 < args.len() && args[i] == "-plist"@ {
        mounts_named(args, i + 2)
    } else {
        mounts_named(args, i + 1)
    }
}

/// The utility's arguments for a detach: `detach [-force] <target>`.
pub open spec fn detach_args(target: Seq<char>, force: bool) -> Seq<Seq<char>> {
    seq!["detach"@] + (if force {
        seq!["-force"@]
    } else {
        seq![]
    }) + seq![target]
}

/// What an attach run of the utility gives: its failure, or the mount point and
/// device node that its answer holds.
pub open spec fn attach_outcome(output: CommandOutput) -> Result<(Seq<char>, Seq<char>), ErrorView> {
    match exit_outcome(output.success, output.stderr@) {
        Ok(_) => decoded_response(output.stdout@),
        Err(e) => Err(e),
    }
}

/// A handle on an attached disk image, released only by consuming it with
/// [`Handle::detach`] or [`Handle::force_detach`].
///
/// Created with [`Attach::attach`].
#[derive(Debug)]
pub struct Handle(Info);

/// A handle on an attached disk image that is to be detached when it goes out
/// of scope.
///
/// Created with [`Attach::with`].
#[derive(Debug)]
pub struct With(Info);

impl View for Handle {
    type V = (Seq<char>, Seq<char>);

    closed spec fn view(&self) -> (Seq<char>, Seq<char>) {
        self.0@
    }
}

impl View for With {
    type V = (Seq<char>, Seq<char>);

    closed spec fn view(&self) -> (Seq<char>, Seq<char>) {
        self.0@
    }
}

/// Access the [`Info`] of the attached image.
impl std::ops::Deref for Handle {
    type Target = Info;

    fn deref(&self) -> &Info {
        &self.0
    }
}

/// Access the [`Info`] of the attached image.
impl std::ops::Deref for With {
    type Target = Info;

    fn deref(&self) -> &Info {
        &self.0
    }
}

/// Renders the arguments of a detach of `target`, a device node or a mount point.
pub fn detach_arguments(target: &str, force: bool) -> (r: Vec<String>)
    ensures
        r.deep_view() == detach_args(target@, force),
{
    let mut r: Vec<String> = Vec::new();
    r.push("detach".to_owned());
    if force {
        r.push("-force".to_owned());
    }
    r.push(target.to_owned());
    assert(r.deep_view() =~= detach_args(target@, force));
    r
}

impl Handle {
    /// The mount point and device node of the attached image.
    pub fn info(&self) -> (r: &Info)
        ensures
            r@ == self@,
    {
        &self.0
    }

    /// Consumes the handle, giving the arguments that detach the image even
    /// where files on it are open.
    pub fn force_detach(self) -> (r: Vec<String>)
        ensures
            r.deep_view() == detach_args(self@.1, true),
    {
        detach_arguments(self.0.device.as_str(), true)
    }

    /// Consumes the handle, giving the arguments that detach the image.
    pub fn detach(self) -> (r: Vec<String>)
        ensures
            r.deep_view() == detach_args(self@.1, false),
    {
        detach_arguments(self.0.device.as_str(), false)
    }
}

impl With {
    /// The mount point and device node of the attached image.
    pub fn info(&self) -> (r: &Info)
        ensures
            r@ == self@,
    {
        &self.0
    }

    /// The arguments of the detach that releases the image at the end of its scope.
    pub fn detach_arguments(&self) -> (r: Vec<String>)
        ensures
            r.deep_view() == detach_args(self@.1, false),
    {
        detach_arguments(self.0.device.as_str(), false)
    }
}

impl Attach {
    /// Creates a new attach builder for the given disk image.
    pub fn new(path: &str) -> (r: Attach)
        ensures
            r@ == (AttachView {
                image: path@,
                mount: MountView::Default,
                hidden: false,
                force_readonly: false,
            }),
    {
        Attach { image: path.to_owned(), mount: Mount::Default, hidden: false, force_readonly: false }
    }

    /// Mount volumes on subdirectories of `path` instead of under `/Volumes`.
    pub fn mount_root(self, path: &str) -> (r: Attach)
        ensures
            r@ == (AttachView { mount: MountView::Root(path@), ..self@ }),
    {
        Attach { mount: Mount::Root(path.to_owned()), ..self }
    }

    /// Assuming only one volume, mount it at `path` instead of in `/Volumes`.
    pub fn mount_point(self, path: &str) -> (r: Attach)
        ensures
            r@ == (AttachView { mount: MountView::Point(path@), ..self@ }),
    {
        Attach { mount: Mount::Point(path.to_owned()), ..self }
    }

    /// Mount under `path` with a random unique mount point directory name.
    pub fn mount_random(self, path: &str) -> (r: Attach)
        ensures
            r@ == (AttachView { mount: MountView::Random(path@), ..self@ }),
    {
        Attach { mount: Mount::Random(path.to_owned()), ..self }
    }

    /// Render the volume invisible in applications like Finder.
    pub fn hidden(self) -> (r: Attach)
        ensures
            r@ == (AttachView { hidden: true, ..self@ }),
    {
        Attach { hidden: true, ..self }
    }

    /// Force the device to be read-only.
    pub fn force_readonly(self) -> (r: Attach)
        ensures
            r@ == (AttachView { force_readonly: true, ..self@ }),
    {
        Attach { force_readonly: true, ..self }
    }

    /// Renders the utility's arguments for this attach.
    pub fn arguments(&self) -> (r: Vec<String>)
        ensures
            r.deep_view() == attach_args(self@),
    {
        let mut r: Vec<String> = Vec::new();
        r.push("attach".to_owned());
        match &self.mount {
            Mount::Default => {},
            Mount::Random(path) => {
                r.push("-mountrandom".to_owned());
                r.push(path.clone());
            },
            Mount::Root(path) => {
                r.push("-mountroot".to_owned());
                r.push(path.clone());
            },
            Mount::Point(path) => {
                r.push("-mountpoint".to_owned());
                r.push(path.clone());
            },
        }
        if self.force_readonly {
            r.push("-readonly".to_owned());
        }
        if self.hidden {
            r.push("-nobrowse".to_owned());
        }
        r.push("-plist".to_owned());
        r.push(self.image.clone());
        assert(r.deep_view() =~= attach_args(self@));
        r
    }

    /// Reads the utility's run for this attach: its failure, or the attached image.
    fn attach_info(self, output: CommandOutput) -> (r: Result<Info, Error>)
        ensures
            match r {
                Ok(i) => attach_outcome(output) == Ok::<(Seq<char>, Seq<char>), ErrorView>(i@),
                Err(e) => attach_outcome(output) == Err::<(Seq<char>, Seq<char>), ErrorView>(e@),
            },
    {
        let CommandOutput { success, stdout, stderr } = output;
        match check_exit(success, stderr) {
            Ok(()) => decode_response(stdout.as_slice()),
            Err(e) => Err(e),
        }
    }

    /// Attaches the disk image from the utility's run of [`Attach::arguments`];
    /// the handle detaches it when consumed.
    pub fn attach(self, output: CommandOutput) -> (r: Result<Handle, Error>)
        ensures
            match r {
                Ok(h) => attach_outcome(output) == Ok::<(Seq<char>, Seq<char>), ErrorView>(h@),
                Err(e) => attach_outcome(output) == Err::<(Seq<char>, Seq<char>), ErrorView>(e@),
            },
    {
        match self.attach_info(output) {
            Ok(info) => Ok(Handle(info)),
            Err(e) => Err(e),
        }
    }

    /// Attaches the disk image from the utility's run of [`Attach::arguments`];
    /// the handle is to be detached at the end of its scope.
    pub fn with(self, output: CommandOutput) -> (r: Result<With, Error>)
        ensures
            match r {
                Ok(w) => attach_outcome(output) == Ok::<(Seq<char>, Seq<char>), ErrorView>(w@),
                Err(e) => attach_outcome(output) == Err::<(Seq<char>, Seq<char>), ErrorView>(e@),
            },
    {
        match self.attach_info(output) {
            Ok(info) => Ok(With(info)),
            Err(e) => Err(e),
        }
    }
}

/// Reading back the rendered arguments of an attach finds exactly one mount
/// flag where a mount strategy was chosen, and it names that strategy; it
/// finds none for the default placement.
pub proof fn lemma_one_mount_flag(a: Attach)
    ensures
        mounts_named(attach_args(a@), 1) == (if a@.mount is Default {
            seq![]
        } else {
            seq![a@.mount]
        }),
        !(a@.mount is Default) ==> mounts_named(attach_args(a@), 1).len() == 1,
{
    let v = a@;
    let args = attach_args(v);
    reveal_strlit("-mountrandom");
    reveal_strlit("-mountroot");
    reveal_strlit("-mountpoint");
    reveal_strlit("-readonly");
    reveal_strlit("-nobrowse");
    reveal_strlit("-plist");
    assert("-mountrandom"@.len() == 12 && "-mountroot"@.len() == 10 && "-mountpoint"@.len() == 11);
    assert("-readonly"@.len() == 9 && "-nobrowse"@.len() == 9 && "-plist"@.len() == 6);
    let m = mount_args(v.mount).len() as int;
    let r: int = if v.force_readonly { 1 } else { 0 };
    let h: int = if v.hidden { 1 } else { 0 };
    let p = 1 + m + r + h;
    assert(args.len() == p + 2);
    assert(args[p] == "-plist"@);
    assert(mount_flag(args[p], args[p + 1]) is None);
    assert(mounts_named(args, p + 2) == Seq::<MountView>::empty());
    assert(mounts_named(args, p) == Seq::<MountView>::empty());
    if v.hidden {
        assert(args[p - 1] == "-nobrowse"@);
        assert(mount_flag(args[p - 1], args[p]) is None);
        assert(mounts_named(args, p - 1) == Seq::<MountView>::empty());
    }
    if v.force_readonly {
        assert(args[1 + m] == "-readonly"@);
        assert(mount_flag(args[1 + m], args[2 + m]) is None);
        assert(mounts_named(args, 1 + m) == Seq::<MountView>::empty());
    }
    assert(mounts_named(args, 1 + m) == Seq::<MountView>::empty());
    if !(v.mount is Default) {
        assert(m == 2);
        match v.mount {
            MountView::Random(d) => assert(args[1] == "-mountrandom"@ && args[2] == d),
            MountView::Root(d) => assert(args[1] == "-mountroot"@ && args[2] == d),
            MountView::Point(d) => assert(args[1] == "-mountpoint"@ && args[2] == d),
            MountView::Default => {},
        }
        assert(mount_flag(args[1], args[2]) == Some(v.mount));
        assert(mounts_named(args, 1) =~= seq![v.mount]);
    }
}

} // verus!
