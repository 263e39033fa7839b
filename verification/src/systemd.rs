//! The service unit file the receiving-side daemon installs itself with.
//! Generating the content is pure; writing it to disk is the caller's
//! business.
use vstd::prelude::*;

verus! {

/// The unit file's text.
pub open spec fn spec_unit_file_text() -> Seq<char> {
    "[Unit]\nDescription=A daemon to receive and process Starboard inputs\n\n[Service]\nType=simple\nUser=root\nGroup=root\nExecStart=/usr/local/bin/starboard server\n\n"@
}

/// The bytes of the service unit file: a [Unit] section describing the
/// daemon and a [Service] section that runs the receiving side as root.
pub fn gen_systemd_unit_file() -> (r: Vec<u8>)
    ensures
        r@ == vstd::utf8::encode_utf8(spec_unit_file_text()),
{
    let text: &str =
        "[Unit]\nDescription=A daemon to receive and process Starboard inputs\n\n[Service]\nType=simple\nUser=root\nGroup=root\nExecStart=/usr/local/bin/starboard server\n\n";
    text.as_bytes_vec()
}

} // verus!
