//! How a segment is opened or created: the access mode, the protection of its
//! mapping, and the normalized form of its name.
use vstd::prelude::*;
use vstd::string::{StrSliceExecFns, StringExecFns};

verus! {

/// The permission mode that new segments get unless told otherwise.
pub const DEFAULT_MODE: u32 = 0o644;

/// Whether `bits` is a permission mode: permission, set-id and sticky bits
/// only.
pub open spec fn mode_valid(bits: u32) -> bool {
    bits <= 0o7777
}

/// Relies on nix::sys::stat::Mode::from_bits: it accepts exactly the bits
/// that name its flags, the permission, set-id and sticky bits (0o7777).
#[verifier::external_body]
fn mode_accepted(bits: u32) -> (r: bool)
    ensures
        r == mode_valid(bits),
{
    nix::sys::stat::Mode::from_bits(bits as nix::libc::mode_t).is_some()
}

/// The name as the OS wants it: with a leading `/`, added when missing.
pub open spec fn normalized(name: Seq<char>) -> Seq<char> {
    if name.len() > 0 && name[0] == '/' {
        name
    } else {
        seq!['/'] + name
    }
}

/// Gives `name` the leading `/` that names of shared-memory objects need.
pub fn prepend_slash(name: &str) -> (r: String)
    ensures
        r@ == normalized(name@),
{
    if name.unicode_len() > 0 && name.get_char(0) == '/' {
        String::from_str(name)
    } else {
        let mut r = String::from_str("/");
        proof {
            reveal_strlit("/");
        }
        r.append(name);
        r
    }
}

/// Options for opening or creating a segment.
#[derive(Clone, Copy, Debug, PartialEq, Eq, Structural)]
pub struct OpenOptions {
    /// The permission mode a created segment gets.
    pub mode: u32,
    /// Create the segment when it does not exist.
    pub create: bool,
    /// Together with `create`: fail when the segment already exists.
    pub exclusive: bool,
    /// Map the segment readable.
    pub read: bool,
    /// Map the segment writable.
    pub write: bool,
    /// Map the segment executable.
    pub execute: bool,
    /// The offset in the object where the mapping starts; a multiple of the
    /// page size.
    pub offset: i64,
}

/// Mode 0o644, opened for reading and writing but not created, a mapping with
/// no access, at offset 0.
pub open spec fn default_options() -> OpenOptions {
    OpenOptions {
        mode: DEFAULT_MODE,
        create: false,
        exclusive: false,
        read: false,
        write: false,
        execute: false,
        offset: 0,
    }
}

impl OpenOptions {
    /// Mode 0o644, opened for reading and writing but not created, a mapping
    /// with no access, at offset 0.
    pub fn new() -> (r: OpenOptions)
        ensures
            r == default_options(),
    {
        OpenOptions {
            mode: DEFAULT_MODE,
            create: false,
            exclusive: false,
            read: false,
            write: false,
            execute: false,
            offset: 0,
        }
    }

    /// The options with permission mode `mode`.
    pub fn mode(self, mode: u32) -> (r: OpenOptions)
        requires
            mode_valid(mode),
        ensures
            r == (OpenOptions { mode, ..self }),
    {
        OpenOptions { mode, ..self }
    }

    /// The options with permission mode `mode`, or `None` when `mode` is not
    /// a permission mode.
    pub fn try_mode(self, mode: u32) -> (r: Option<OpenOptions>)
        ensures
            mode_valid(mode) ==> r == Some(OpenOptions { mode, ..self }),
            !mode_valid(mode) ==> r is None,
    {
        if mode_accepted(mode) {
            Some(self.mode(mode))
        } else {
            None
        }
    }

    pub fn create(self, create: bool) -> (r: OpenOptions)
        ensures
            r == (OpenOptions { create, ..self }),
    {
        OpenOptions { create, ..self }
    }

    pub fn exclusive(self, exclusive: bool) -> (r: OpenOptions)
        ensures
            r == (OpenOptions { exclusive, ..self }),
    {
        OpenOptions { exclusive, ..self }
    }

    pub fn read(self, readable: bool) -> (r: OpenOptions)
        ensures
            r == (OpenOptions { read: readable, ..self }),
    {
        OpenOptions { read: readable, ..self }
    }

    pub fn write(self, writable: bool) -> (r: OpenOptions)
        ensures
            r == (OpenOptions { write: writable, ..self }),
    {
        OpenOptions { write: writable, ..self }
    }

    pub fn execute(self, executable: bool) -> (r: OpenOptions)
        ensures
            r == (OpenOptions { execute: executable, ..self }),
    {
        OpenOptions { execute: executable, ..self }
    }

    /// The options with the mapping starting at `offset`, which must be a
    /// multiple of the page size.
    pub fn offset(self, offset: i64) -> (r: OpenOptions)
        ensures
            r == (OpenOptions { offset, ..self }),
    {
        OpenOptions { offset, ..self }
    }

    /// The options a new segment is made with: created, and refused when the
    /// name exists; mapped for reading and writing.
    pub fn for_create() -> (r: OpenOptions)
        ensures
            r == (OpenOptions { create: true, exclusive: true, read: true, write: true, ..default_options() }),
    {
        OpenOptions::new().read(true).write(true).create(true).exclusive(true)
    }

    /// The options an existing segment is opened with: never created, so that
    /// a name that does not exist is refused; mapped for reading and writing.
    pub fn for_open() -> (r: OpenOptions)
        ensures
            r == (OpenOptions { read: true, write: true, ..default_options() }),
            !r.create,
    {
        OpenOptions::new().read(true).write(true)
    }
}

impl Default for OpenOptions {
    fn default() -> (r: OpenOptions)
        ensures
            r == default_options(),
    {
        OpenOptions::new()
    }
}

} // verus!
