//! The rpm items that rendering relies on, and a model of the attributes
//! that rendering hands to rpm.
use vstd::prelude::*;

verus! {

#[verifier::external_type_specification]
#[verifier::external_body]
pub struct ExFileOptions(rpm::FileOptions);

#[verifier::external_type_specification]
#[verifier::external_body]
pub struct ExFileOptionsBuilder(rpm::FileOptionsBuilder);

#[verifier::external_type_specification]
#[verifier::external_body]
pub struct ExFileMode(rpm::FileMode);

#[verifier::external_type_specification]
#[verifier::external_body]
pub struct ExRpmError(rpm::Error);

/// Whether rpm accepts `caps` as a file capability string. rpm decides this
/// from the text alone.
pub uninterp spec fn caps_accepted(caps: Seq<char>) -> bool;

/// The attributes of a file entry that rendering sets: its destination, its
/// raw mode (file type and permission bits), its owner and group, and the
/// capability text handed to rpm (rpm keeps it in a normalized form).
pub struct DirAttrs {
    pub dest: Seq<char>,
    pub raw_mode: u16,
    pub user: Option<Seq<char>>,
    pub group: Option<Seq<char>>,
    pub caps: Option<Seq<char>>,
}

/// rpm's raw mode of a regular file with permissions 0o644.
pub const REGULAR_644: u16 = 0o100644;

/// The raw mode that rpm gives a directory with the given permissions: the
/// directory type bits, and the permissions masked to 0o7777.
pub open spec fn dir_raw_mode(permissions: u16) -> u16 {
    0o040000u16 | (permissions & 0o7777u16)
}

/// A directory mode built by rpm, together with its raw value.
pub struct DirMode {
    mode: rpm::FileMode,
    raw: Ghost<u16>,
}

impl View for DirMode {
    type V = u16;

    closed spec fn view(&self) -> u16 {
        self.raw@
    }
}

/// File options being built, together with the attributes set so far.
pub struct DirOptionsBuilder {
    builder: rpm::FileOptionsBuilder,
    attrs: Ghost<DirAttrs>,
}

impl View for DirOptionsBuilder {
    type V = DirAttrs;

    closed spec fn view(&self) -> DirAttrs {
        self.attrs@
    }
}

/// Finished rpm file options, together with the attributes they were given.
pub struct DirOptions {
    options: rpm::FileOptions,
    attrs: Ghost<DirAttrs>,
}

impl View for DirOptions {
    type V = DirAttrs;

    closed spec fn view(&self) -> DirAttrs {
        self.attrs@
    }
}

impl DirOptions {
    /// The rpm file options.
    pub fn into_file_options(self) -> rpm::FileOptions {
        self.options
    }
}

/// Relies on rpm::FileOptions::new: the destination is `dest`, the mode that
/// of a regular file with permissions 0o644, no owner, group or capabilities.
#[verifier::external_body]
pub(crate) fn options_at(dest: &str) -> (r: DirOptionsBuilder)
    ensures
        r@ == (DirAttrs { dest: dest@, raw_mode: REGULAR_644, user: None, group: None, caps: None }),
{
    DirOptionsBuilder {
        builder: rpm::FileOptions::new(dest),
        attrs: Ghost(DirAttrs { dest: dest@, raw_mode: REGULAR_644, user: None, group: None, caps: None }),
    }
}

/// Relies on rpm::FileMode::dir: the directory type bits, with the
/// permissions masked to 0o7777.
#[verifier::external_body]
pub(crate) fn dir_mode(permissions: u16) -> (r: DirMode)
    ensures
        r@ == dir_raw_mode(permissions),
{
    DirMode { mode: rpm::FileMode::dir(permissions), raw: Ghost(dir_raw_mode(permissions)) }
}

/// Relies on rpm::FileOptionsBuilder::mode: replaces the mode.
#[verifier::external_body]
pub(crate) fn with_mode(b: DirOptionsBuilder, mode: DirMode) -> (r: DirOptionsBuilder)
    ensures
        r@ == (DirAttrs { raw_mode: mode@, ..b@ }),
{
    DirOptionsBuilder { builder: b.builder.mode(mode.mode), attrs: Ghost(DirAttrs { raw_mode: mode@, ..b@ }) }
}

/// Relies on rpm::FileOptionsBuilder::user: sets the owning user.
#[verifier::external_body]
pub(crate) fn with_user(b: DirOptionsBuilder, user: &str) -> (r: DirOptionsBuilder)
    ensures
        r@ == (DirAttrs { user: Some(user@), ..b@ }),
{
    DirOptionsBuilder { builder: b.builder.user(user), attrs: Ghost(DirAttrs { user: Some(user@), ..b@ }) }
}

/// Relies on rpm::FileOptionsBuilder::group: sets the owning group.
#[verifier::external_body]
pub(crate) fn with_group(b: DirOptionsBuilder, group: &str) -> (r: DirOptionsBuilder)
    ensures
        r@ == (DirAttrs { group: Some(group@), ..b@ }),
{
    DirOptionsBuilder { builder: b.builder.group(group), attrs: Ghost(DirAttrs { group: Some(group@), ..b@ }) }
}

/// Relies on rpm::FileOptionsBuilder::caps: it validates the text with
/// rpm's capability parser, fails exactly where that parser rejects it, and
/// otherwise sets the capabilities.
#[verifier::external_body]
pub(crate) fn with_caps(b: DirOptionsBuilder, caps: &str) -> (r: Result<DirOptionsBuilder, rpm::Error>)
    ensures
        r is Ok <==> caps_accepted(caps@),
        r matches Ok(o) ==> o@ == (DirAttrs { caps: Some(caps@), ..b@ }),
{
    match b.builder.caps(caps) {
        Ok(builder) => Ok(DirOptionsBuilder { builder, attrs: Ghost(DirAttrs { caps: Some(caps@), ..b@ }) }),
        Err(e) => Err(e),
    }
}

/// Relies on rpm's `From<FileOptionsBuilder> for FileOptions`: the finished
/// options, with the attributes set on the builder.
#[verifier::external_body]
pub(crate) fn finish(b: DirOptionsBuilder) -> (r: DirOptions)
    ensures
        r@ == b@,
{
    DirOptions { options: b.builder.into(), attrs: b.attrs }
}

} // verus!
