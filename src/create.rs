//! Creating new disk images.
//!
//! A [`FromFolder`] builder collects the options of an image made from a source
//! folder and renders the utility's arguments.

use vstd::prelude::*;
use vstd::string::StringExecFns;
use crate::command::{check_exit, exit_outcome, status_view, CommandOutput, Error};

verus! {

/// Format that can be passed to [`FromFolder`].
#[non_exhaustive]
#[derive(Debug, Clone, Copy, PartialEq, Eq)]
pub enum FolderImageFormat {
    /// read-only
    UDRO,
    /// compressed (ADC)
    UDCO,
    /// compressed
    UDZO,
    /// compressed (bzip2); the utility marks it as deprecated, but it still works
    UDBZ,
    /// compressed (lzfse)
    ULFO,
    /// compressed (lzma)
    ULMO,
    /// entire device
    UFBI,
    /// iPod image
    IPOD,
    /// sparsebundle
    UDSB,
    /// sparse
    UDSP,
    /// read/write
    UDRW,
    /// DVD/CD master
    UDTO,
    /// hybrid image (HFS+/ISO/UDF)
    UNIV,
    /// sparse bundle disk image
    SPARSEBUNDLE,
    /// sparse disk image
    SPARSE,
    /// read/write disk image
    UDIF,
}

/// The token by which the utility knows a format.
pub open spec fn format_token(f: FolderImageFormat) -> Seq<char> {
    match f {
        FolderImageFormat::UDRO => "UDRO"@,
        FolderImageFormat::UDCO => "UDCO"@,
        FolderImageFormat::UDZO => "UDZO"@,
        FolderImageFormat::UDBZ => "UDBZ"@,
        FolderImageFormat::ULFO => "ULFO"@,
        FolderImageFormat::ULMO => "ULMO"@,
        FolderImageFormat::UFBI => "UFBI"@,
        FolderImageFormat::IPOD => "IPOD"@,
        FolderImageFormat::UDSB => "UDSB"@,
        FolderImageFormat::UDSP => "UDSP"@,
        FolderImageFormat::UDRW => "UDRW"@,
        FolderImageFormat::UDTO => "UDTO"@,
        FolderImageFormat::UNIV => "UNIV"@,
        FolderImageFormat::SPARSEBUNDLE => "SPARSEBUNDLE"@,
        FolderImageFormat::SPARSE => "SPARSE"@,
        FolderImageFormat::UDIF => "UDIF"@,
    }
}

impl FolderImageFormat {
    /// The token by which the utility knows this format.
    pub fn format_name(&self) -> (r: &'static str)
        ensures
            r@ == format_token(*self),
    {
        match self {
            FolderImageFormat::UDRO => "UDRO",
            FolderImageFormat::UDCO => "UDCO",
            FolderImageFormat::UDZO => "UDZO",
            FolderImageFormat::UDBZ => "UDBZ",
            FolderImageFormat::ULFO => "ULFO",
            FolderImageFormat::ULMO => "ULMO",
            FolderImageFormat::UFBI => "UFBI",
            FolderImageFormat::IPOD => "IPOD",
            FolderImageFormat::UDSB => "UDSB",
            FolderImageFormat::UDSP => "UDSP",
            FolderImageFormat::UDRW => "UDRW",
            FolderImageFormat::UDTO => "UDTO",
            FolderImageFormat::UNIV => "UNIV",
            FolderImageFormat::SPARSEBUNDLE => "SPARSEBUNDLE",
            FolderImageFormat::SPARSE => "SPARSE",
            FolderImageFormat::UDIF => "UDIF",
        }
    }
}

/// Options common between the different ways of creating an image.
#[derive(Debug, Clone)]
struct CommonOptions {
    overwrite: bool,
    volume_name: Option<String>,
}

/// Builder to create a disk image from a source folder.
#[derive(Debug, Clone)]
pub struct FromFolder {
    common_options: CommonOptions,
    source_folder: String,
    spotlight: bool,
    any_owners: bool,
    skip_unreadable: bool,
    atomic: bool,
    format: FolderImageFormat,
}

/// The options of an image made from a source folder.
pub struct FromFolderView {
    pub overwrite: bool,
    pub volume_name: Option<Seq<char>>,
    pub source_folder: Seq<char>,
    pub spotlight: bool,
    pub any_owners: bool,
    pub skip_unreadable: bool,
    pub atomic: bool,
    pub format: FolderImageFormat,
}

impl View for FromFolder {
    type V = FromFolderView;

    closed spec fn view(&self) -> FromFolderView {
        FromFolderView {
            overwrite: self.common_options.overwrite,
            volume_name: match self.common_options.volume_name {
                Some(n) => Some(n@),
                None => None,
            },
            source_folder: self.source_folder@,
            spotlight: self.spotlight,
            any_owners: self.any_owners,
            skip_unreadable: self.skip_unreadable,
            atomic: self.atomic,
            format: self.format,
        }
    }
}

/// A two-way option, always written out: `-<option>` or `-no<option>`.
pub open spec fn binary_flag(option: Seq<char>, enabled: bool) -> Seq<char> {
    if enabled {
        "-"@ + option
    } else {
        "-no"@ + option
    }
}

/// The arguments of the options common to all creations: `[-ov] [-volname <name>]`.
pub open spec fn common_args(overwrite: bool, volume_name: Option<Seq<char>>) -> Seq<Seq<char>> {
    (if overwrite {
        seq!["-ov"@]
    } else {
        seq![]
    }) + match volume_name {
        Some(n) => seq!["-volname"@, n],
        None => seq![],
    }
}

/// The utility's arguments for creating the image `target`.
pub open spec fn create_args(f: FromFolderView, target: Seq<char>) -> Seq<Seq<char>> {
    seq!["create"@] + common_args(f.overwrite, f.volume_name) + seq![
        binary_flag("spotlight"@, f.spotlight),
        binary_flag("anyowners"@, f.any_owners),
        binary_flag("skipunreadable"@, f.skip_unreadable),
        binary_flag("atomic"@, f.atomic),
        "-format"@,
        format_token(f.format),
        "-srcfolder"@,
        f.source_folder,
        target,
    ]
}

/// Appends the arguments of the common options.
fn apply_common_options(args: &mut Vec<String>, options: &CommonOptions)
    ensures
        final(args).deep_view() == old(args).deep_view() + common_args(
            options.overwrite,
            match options.volume_name {
                Some(n) => Some(n@),
                None => None,
            },
        ),
{
    let ghost start = args.deep_view();
    if options.overwrite {
        args.push("-ov".to_owned());
    }
    if let Some(name) = &options.volume_name {
        args.push("-volname".to_owned());
        args.push(name.clone());
    }
    assert(args.deep_view() =~= start + common_args(
        options.overwrite,
        match options.volume_name {
            Some(n) => Some(n@),
            None => None,
        },
    ));
}

/// A two-way option as an argument.
fn binary_option(option: &str, enabled: bool) -> (r: String)
    ensures
        r@ == binary_flag(option@, enabled),
{
    if enabled {
        "-".to_owned().concat(option)
    } else {
        "-no".to_owned().concat(option)
    }
}

impl FromFolder {
    /// Create a new builder for creating a disk image from a source folder.
    pub fn new(source_folder: &str) -> (r: FromFolder)
        ensures
            r@ == (FromFolderView {
                overwrite: false,
                volume_name: None,
                source_folder: source_folder@,
                spotlight: false,
                any_owners: false,
                skip_unreadable: false,
                atomic: true,
                format: FolderImageFormat::UDZO,
            }),
    {
        FromFolder {
            common_options: CommonOptions { overwrite: false, volume_name: None },
            source_folder: source_folder.to_owned(),
            spotlight: false,
            any_owners: false,
            skip_unreadable: false,
            atomic: true,
            format: FolderImageFormat::UDZO,
        }
    }

    /// Overwrite (clobber) an existing file.
    pub fn overwrite(self) -> (r: FromFolder)
        ensures
            r@ == (FromFolderView { overwrite: true, ..self@ }),
    {
        let FromFolder {
            common_options,
            source_folder,
            spotlight,
            any_owners,
            skip_unreadable,
            atomic,
            format,
        } = self;
        FromFolder {
            common_options: CommonOptions { overwrite: true, volume_name: common_options.volume_name },
            source_folder,
            spotlight,
            any_owners,
            skip_unreadable,
            atomic,
            format,
        }
    }

    /// Set the volume name of the disk image. Without it the utility picks one;
    /// for an image made from a folder, the folder's name appears to be used.
    pub fn volume_name(self, name: &str) -> (r: FromFolder)
        ensures
            r@ == (FromFolderView { volume_name: Some(name@), ..self@ }),
    {
        let FromFolder {
            common_options,
            source_folder,
            spotlight,
            any_owners,
            skip_unreadable,
            atomic,
            format,
        } = self;
        FromFolder {
            common_options: CommonOptions {
                overwrite: common_options.overwrite,
                volume_name: Some(name.to_owned()),
            },
            source_folder,
            spotlight,
            any_owners,
            skip_unreadable,
            atomic,
            format,
        }
    }

    /// Skip files that can't be read by the copying user and don't authenticate.
    pub fn skip_unreadable(self) -> (r: FromFolder)
        ensures
            r@ == (FromFolderView { skip_unreadable: true, ..self@ }),
    {
        FromFolder { skip_unreadable: true, ..self }
    }

    /// Do not fail if the user invoking the utility can't ensure correct file
    /// ownership for the files in the image.
    pub fn any_owners(self) -> (r: FromFolder)
        ensures
            r@ == (FromFolderView { any_owners: true, ..self@ }),
    {
        FromFolder { any_owners: true, ..self }
    }

    /// Create a Spotlight index.
    pub fn spotlight_index(self) -> (r: FromFolder)
        ensures
            r@ == (FromFolderView { spotlight: true, ..self@ }),
    {
        FromFolder { spotlight: true, ..self }
    }

    /// Do not copy files to a temporary location and then rename them to their
    /// destination. May be slightly faster.
    pub fn non_atomic(self) -> (r: FromFolder)
        ensures
            r@ == (FromFolderView { atomic: false, ..self@ }),
    {
        FromFolder { atomic: false, ..self }
    }

    /// Renders the utility's arguments for creating the image `image_path`.
    pub fn arguments(&self, image_path: &str) -> (r: Vec<String>)
        ensures
            r.deep_view() == create_args(self@, image_path@),
    {
        let mut args: Vec<String> = Vec::new();
        args.push("create".to_owned());
        apply_common_options(&mut args, &self.common_options);
        let ghost base = args.deep_view();
        assert(base =~= seq!["create"@] + common_args(self@.overwrite, self@.volume_name));
        args.push(binary_option("spotlight", self.spotlight));
        args.push(binary_option("anyowners", self.any_owners));
        args.push(binary_option("skipunreadable", self.skip_unreadable));
        args.push(binary_option("atomic", self.atomic));
        args.push("-format".to_owned());
        args.push(self.format.format_name().to_owned());
        args.push("-srcfolder".to_owned());
        args.push(self.source_folder.clone());
        args.push(image_path.to_owned());
        assert(args.deep_view() =~= base + seq![
            binary_flag("spotlight"@, self.spotlight),
            binary_flag("anyowners"@, self.any_owners),
            binary_flag("skipunreadable"@, self.skip_unreadable),
            binary_flag("atomic"@, self.atomic),
            "-format"@,
            format_token(self.format),
            "-srcfolder"@,
            self.source_folder@,
            image_path@,
        ]);
        assert(args.deep_view() =~= create_args(self@, image_path@));
        args
    }

    /// Reads the utility's run of [`FromFolder::arguments`]: whether the image was created.
    pub fn create(self, output: CommandOutput) -> (r: Result<(), Error>)
        ensures
            status_view(r) == exit_outcome(output.success, output.stderr@),
    {
        check_exit(output.success, output.stderr)
    }
}

} // verus!
