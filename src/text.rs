//! The fixed byte strings of the launch-options entry.

use vstd::prelude::*;

verus! {

/// The double-quote byte that delimits VDF atoms.
pub const QUOTE: u8 = 34;

/// The byte that opens a VDF block.
pub const OPEN_BRACE: u8 = 123;

/// Length of the quoted key `"LaunchOptions"`.
pub const KEY_LEN: usize = 15;

/// `"LaunchOptions"`, quotes included.
pub open spec fn launch_key() -> Seq<u8> {
    seq![34u8, 76, 97, 117, 110, 99, 104, 79, 112, 116, 105, 111, 110, 115, 34]
}

/// `protonhax`: the wrapper's name, whose presence in a value marks it as installed.
pub open spec fn wrapper_name() -> Seq<u8> {
    seq![112u8, 114, 111, 116, 111, 110, 104, 97, 120]
}

/// `protonhax init `: the prefix put in front of the launch options.
pub open spec fn wrapper_prefix() -> Seq<u8> {
    wrapper_name() + seq![32u8, 105, 110, 105, 116, 32]
}

/// `%COMMAND%`: Steam's stand-in for the game's own command line.
pub open spec fn command_token() -> Seq<u8> {
    seq![37u8, 67, 79, 77, 77, 65, 78, 68, 37]
}

/// The value installed where there was none: `protonhax init %COMMAND%`.
pub open spec fn bare_wrapper() -> Seq<u8> {
    wrapper_prefix() + command_token()
}

/// The new launch options for an existing value `v`.
pub open spec fn wrapped(v: Seq<u8>) -> Seq<u8> {
    if v.len() == 0 {
        bare_wrapper()
    } else {
        wrapper_prefix() + v + seq![32u8] + command_token()
    }
}

/// The entry inserted at the head of an app block that has no launch
/// options: a newline, seven tabs, the key, two tabs, the quoted value.
pub open spec fn inserted_entry() -> Seq<u8> {
    seq![10u8, 9, 9, 9, 9, 9, 9, 9] + launch_key() + seq![9u8, 9, QUOTE] + bare_wrapper() + seq![
        QUOTE,
    ]
}

/// `id` between double quotes, as an app's key appears in the file.
pub open spec fn app_token(id: Seq<u8>) -> Seq<u8> {
    seq![QUOTE] + id + seq![QUOTE]
}

pub fn launch_key_bytes() -> (r: Vec<u8>)
    ensures
        r@ == launch_key(),
{
    let r: Vec<u8> = vec![34, 76, 97, 117, 110, 99, 104, 79, 112, 116, 105, 111, 110, 115, 34];
    assert(r@ =~= launch_key());
    r
}


pub fn wrapper_name_bytes() -> (r: Vec<u8>)
    ensures
        r@ == wrapper_name(),
{
    let r: Vec<u8> = vec![112, 114, 111, 116, 111, 110, 104, 97, 120];
    assert(r@ =~= wrapper_name());
    r
}

/// Appends `src[from..to]` to `out`.
pub fn push_range(out: &mut Vec<u8>, src: &[u8], from: usize, to: usize)
    requires
        from <= to <= src@.len(),
    ensures
        final(out)@ == old(out)@ + src@.subrange(from as int, to as int),
{
    let mut i: usize = from;
    while i < to
        invariant
            from <= i <= to <= src@.len(),
            out@ == old(out)@ + src@.subrange(from as int, i as int),
        decreases to - i,
    {
        out.push(src[i]);
        i = i + 1;
        assert(out@ =~= old(out)@ + src@.subrange(from as int, i as int));
    }
}

/// The new launch options for the existing value `s[v0..v1]`.
pub fn wrapped_value(s: &[u8], v0: usize, v1: usize) -> (r: Vec<u8>)
    requires
        v0 <= v1 <= s@.len(),
    ensures
        r@ == wrapped(s@.subrange(v0 as int, v1 as int)),
{
    let mut r: Vec<u8> = vec![112, 114, 111, 116, 111, 110, 104, 97, 120, 32, 105, 110, 105, 116, 32];
    assert(r@ =~= wrapper_prefix());
    if v0 < v1 {
        push_range(&mut r, s, v0, v1);
        r.push(32);
    }
    let tail: Vec<u8> = vec![37, 67, 79, 77, 77, 65, 78, 68, 37];
    push_range(&mut r, tail.as_slice(), 0, tail.len());
    assert(tail@.subrange(0, 9) =~= command_token());
    assert(r@ =~= wrapped(s@.subrange(v0 as int, v1 as int)));
    r
}

/// The entry inserted where an app block has no launch options.
pub fn inserted_entry_bytes() -> (r: Vec<u8>)
    ensures
        r@ == inserted_entry(),
{
    let r: Vec<u8> = vec![
        10, 9, 9, 9, 9, 9, 9, 9,
        34, 76, 97, 117, 110, 99, 104, 79, 112, 116, 105, 111, 110, 115, 34,
        9, 9, 34,
        112, 114, 111, 116, 111, 110, 104, 97, 120, 32, 105, 110, 105, 116, 32,
        37, 67, 79, 77, 77, 65, 78, 68, 37, 34,
    ];
    assert(r@ =~= inserted_entry());
    r
}

/// `id` between double quotes.
pub fn app_token_bytes(id: &[u8]) -> (r: Vec<u8>)
    ensures
        r@ == app_token(id@),
{
    let mut r: Vec<u8> = Vec::new();
    r.push(QUOTE);
    push_range(&mut r, id, 0, id.len());
    r.push(QUOTE);
    assert(id@.subrange(0, id@.len() as int) =~= id@);
    assert(r@ =~= app_token(id@));
    r
}

} // verus!
