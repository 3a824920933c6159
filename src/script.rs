//! What each worker writes to its script path, and with which permissions.
use vstd::prelude::*;

verus! {

/// Permission bits of a script file: read, write and execute for the owner,
/// nothing for anyone else (`rwx------`).
pub const SCRIPT_MODE: u32 = 0o700;

/// Permission bit that lets the owner execute a file.
pub const OWNER_EXECUTE: u32 = 0o100;

/// The script body: `#!/bin/bash`, a shebang line that selects a shell, with no
/// trailing newline.
pub open spec fn script_body_spec() -> Seq<u8> {
    seq![35u8, 33u8, 47u8, 98u8, 105u8, 110u8, 47u8, 98u8, 97u8, 115u8, 104u8]
}

/// The bytes written to a script file on every iteration.
pub fn script_body() -> (r: Vec<u8>)
    ensures
        r@ == script_body_spec(),
{
    let r: Vec<u8> = vec![35u8, 33u8, 47u8, 98u8, 105u8, 110u8, 47u8, 98u8, 97u8, 115u8, 104u8];
    assert(r@ =~= script_body_spec());
    r
}

/// The script mode lets its owner read, write and execute the file, and gives
/// no permission to group or others.
pub proof fn lemma_script_mode_owner_only()
    ensures
        SCRIPT_MODE & OWNER_EXECUTE == OWNER_EXECUTE,
        SCRIPT_MODE & 0o777u32 == 0o700u32,
        SCRIPT_MODE & 0o077u32 == 0u32,
{
    assert(0o700u32 & 0o100u32 == 0o100u32) by (bit_vector);
    assert(0o700u32 & 0o777u32 == 0o700u32) by (bit_vector);
    assert(0o700u32 & 0o077u32 == 0u32) by (bit_vector);
}

/// The script body begins with the shebang marker `#!` followed by an
/// absolute interpreter path.
pub proof fn lemma_script_body_is_shebang()
    ensures
        script_body_spec().len() > 3,
        script_body_spec()[0] == 35u8,
        script_body_spec()[1] == 33u8,
        script_body_spec()[2] == 47u8,
{
}

} // verus!
