//! The configuration store: the one root-path value every worker
//! reads when resolving a requested resource. It is created once at
//! startup from the command line and never changes afterwards, so it
//! can be shared by plain immutable reference.

use vstd::prelude::*;
use vstd::string::StrSliceExecFns;
use vstd::string::StringSliceAdditionalSpecFns;

verus! {

/// The process configuration: the filesystem root under which
/// requested resources are looked up.
pub struct Options {
    /// The root directory path, as given on the command line.
    pub path: String,
}

/// The UTF-8 bytes of the configured root path: the form the
/// resolver works on.
pub open spec fn spec_root_bytes(o: &Options) -> Seq<u8> {
    vstd::utf8::encode_utf8(o.path@)
}

impl Options {
    /// The root path as a byte sequence, the form the resolver
    /// works on.
    pub fn root_bytes(&self) -> (r: Vec<u8>)
        ensures
            r@ == spec_root_bytes(self),
    {
        self.path.as_str().as_bytes_vec()
    }
}

/// Reads the configuration out of the command-line arguments: the
/// first argument after the program name is the root path.
pub fn parse_options(strs: &Vec<String>) -> (r: Options)
    requires
        strs@.len() >= 2,
    ensures
        r.path@ == strs@[1]@,
{
    let path = strs[1].clone();
    Options { path }
}

} // verus!
