use vstd::prelude::*;

verus! {

/// Whether an (offset, length) argument pair denotes a region that lies
/// fully inside guest memory of the given size.
pub open spec fn region_ok(mem_len: int, off: u32, len: u32) -> bool {
    off as int + len as int <= mem_len
}

/// The bytes of the region an (offset, length) pair denotes.
pub open spec fn region_of(mem: Seq<u8>, off: u32, len: u32) -> Seq<u8> {
    mem.subrange(off as int, off as int + len as int)
}

/// Copies a bounds-checked argument region out of guest memory into an owned
/// buffer, or refuses it when any byte of it would fall outside.
pub fn try_slice(mem: &Vec<u8>, off: u32, len: u32) -> (r: Option<Vec<u8>>)
    ensures
        (r is Some) == region_ok(mem@.len() as int, off, len),
        r matches Some(v) ==> v@ == region_of(mem@, off, len),
{
    let off_us = off as usize;
    let len_us = len as usize;
    if off_us <= mem.len() && len_us <= mem.len() - off_us {
        let mut out: Vec<u8> = Vec::new();
        let mut i: usize = 0;
        while i < len_us
            invariant
                off_us == off as usize,
                len_us == len as usize,
                off_us + len_us <= mem@.len(),
                mem@.len() <= usize::MAX,
                i <= len_us,
                out@.len() == i as int,
                forall|k: int| 0 <= k < i as int ==> out@[k] == mem@[off_us as int + k],
            decreases len_us - i,
        {
            out.push(mem[off_us + i]);
            i += 1;
        }
        proof {
            assert(out@ =~= region_of(mem@, off, len));
        }
        Some(out)
    } else {
        None
    }
}

/// Writes `data` into guest memory starting at `off`, exactly filling
/// `data.len()` bytes and touching nothing else; refuses the write, leaving
/// memory unchanged, when the target region would fall outside.
pub fn write_region(mem: &mut Vec<u8>, off: u32, data: &Vec<u8>) -> (r: bool)
    ensures
        r == (off as int + data@.len() <= old(mem)@.len()),
        r ==> {
            &&& final(mem)@.len() == old(mem)@.len()
            &&& (forall|k: int|
                0 <= k < data@.len() ==> final(mem)@[off as int + k] == data@[k])
            &&& (forall|k: int|
                0 <= k < old(mem)@.len() && !(off as int <= k < off as int + data@.len())
                    ==> final(mem)@[k] == old(mem)@[k])
        },
        !r ==> final(mem)@ == old(mem)@,
{
    let off_us = off as usize;
    if off_us <= mem.len() && data.len() <= mem.len() - off_us {
        let mut i: usize = 0;
        while i < data.len()
            invariant
                off_us == off as usize,
                off_us + data@.len() <= mem@.len(),
                mem@.len() <= usize::MAX,
                i <= data@.len(),
                mem@.len() == old(mem)@.len(),
                forall|k: int| 0 <= k < i as int ==> mem@[off_us as int + k] == data@[k],
                forall|k: int|
                    0 <= k < mem@.len() && !(off_us as int <= k < off_us as int + i as int)
                        ==> mem@[k] == old(mem)@[k],
            decreases data@.len() - i,
        {
            let idx = off_us + i;
            mem[idx] = data[i];
            i += 1;
        }
        true
    } else {
        false
    }
}

} // verus!
