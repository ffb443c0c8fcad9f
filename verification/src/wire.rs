use vstd::prelude::*;

verus! {

/// Size in bytes of the varint starting at `pos`: the bytes up to and
/// including the first one without its continuation bit, when that byte
/// stands within the sequence and within the first `fuel` bytes. The
/// parser reads varints the same way and gives up after ten bytes.
pub open spec fn varint_size_rec(data: Seq<u8>, pos: int, fuel: nat) -> Option<int>
    decreases fuel,
{
    if fuel == 0 || pos < 0 || pos >= data.len() {
        None
    } else if data[pos] < 0x80 {
        Some(1)
    } else {
        match varint_size_rec(data, pos + 1, (fuel - 1) as nat) {
            None => None,
            Some(n) => Some(n + 1),
        }
    }
}

/// The varint's value: seven-bit group `i` holds bits `7 * i` and up.
pub open spec fn varint_value_rec(data: Seq<u8>, pos: int, fuel: nat) -> int
    decreases fuel,
{
    if fuel == 0 || pos < 0 || pos >= data.len() {
        0
    } else if data[pos] < 0x80 {
        data[pos] as int
    } else {
        (data[pos] - 0x80) + 0x80 * varint_value_rec(data, pos + 1, (fuel - 1) as nat)
    }
}

/// A varint as the parser reads it: at most ten bytes.
pub open spec fn varint_size(data: Seq<u8>, pos: int) -> Option<int> {
    varint_size_rec(data, pos, 10)
}

pub open spec fn varint_value(data: Seq<u8>, pos: int) -> int {
    varint_value_rec(data, pos, 10)
}

/// `v`, saturated at `2^32`: all the scanner's checks compare length claims
/// against byte counts below that, so values beyond it need no exact figure.
pub open spec fn cap32(v: int) -> int {
    if v > 0x1_0000_0000 {
        0x1_0000_0000 as int
    } else {
        v
    }
}

pub proof fn lemma_varint_size_rec_bounds(data: Seq<u8>, pos: int, fuel: nat)
    ensures
        varint_size_rec(data, pos, fuel) is Some ==> 1 <= varint_size_rec(data, pos, fuel)->0
            <= fuel && pos + varint_size_rec(data, pos, fuel)->0 <= data.len(),
    decreases fuel,
{
    if fuel > 0 && 0 <= pos < data.len() && data[pos] >= 0x80 {
        lemma_varint_size_rec_bounds(data, pos + 1, (fuel - 1) as nat);
    }
}

pub proof fn lemma_varint_value_rec_nonneg(data: Seq<u8>, pos: int, fuel: nat)
    ensures
        varint_value_rec(data, pos, fuel) >= 0,
    decreases fuel,
{
    if fuel > 0 && 0 <= pos < data.len() && data[pos] >= 0x80 {
        lemma_varint_value_rec_nonneg(data, pos + 1, (fuel - 1) as nat);
    }
}

/// Whether the parser can walk the fields of the message region
/// `[pos, msg_end)` without leaving it: each field's tag varint terminates
/// inside the region, and its payload — a varint, eight or four fixed bytes,
/// or a length-delimited chunk whose claimed length fits in what remains —
/// ends inside it too. The wire type is the tag's low three bits, which the
/// first tag byte carries whatever the tag's length. Length claims are also
/// held below `2^32`, the range the parser reads length prefixes in.
pub open spec fn fields_ok(data: Seq<u8>, pos: int, msg_end: int) -> bool
    decreases msg_end - pos,
{
    if pos >= msg_end {
        true
    } else {
        match varint_size(data, pos) {
            None => false,
            Some(kt) => {
                proof {
                    lemma_varint_size_rec_bounds(data, pos, 10);
                }
                if pos + kt > msg_end {
                    false
                } else {
                    let wire = data[pos] % 8;
                    let p = pos + kt;
                    if wire == 0 {
                        match varint_size(data, p) {
                            None => false,
                            Some(kv) => {
                                proof {
                                    lemma_varint_size_rec_bounds(data, p, 10);
                                }
                                p + kv <= msg_end && fields_ok(data, p + kv, msg_end)
                            },
                        }
                    } else if wire == 1 {
                        p + 8 <= msg_end && fields_ok(data, p + 8, msg_end)
                    } else if wire == 2 {
                        match varint_size(data, p) {
                            None => false,
                            Some(kl) => {
                                proof {
                                    lemma_varint_size_rec_bounds(data, p, 10);
                                    lemma_varint_value_rec_nonneg(data, p, 10);
                                }
                                let claim = varint_value(data, p);
                                p + kl <= msg_end && claim < 0x1_0000_0000 && p + kl + claim
                                    <= msg_end && fields_ok(data, p + kl + claim, msg_end)
                            },
                        }
                    } else if wire == 5 {
                        p + 4 <= msg_end && fields_ok(data, p + 4, msg_end)
                    } else {
                        false
                    }
                }
            },
        }
    }
}

/// Whether the parser can walk all of `data`'s wire framing within bounds:
/// a length prefix that fits in the bytes after it, then fields as
/// `fields_ok` says. Bytes after the prefixed message are never read.
pub open spec fn wire_accepts(data: Seq<u8>) -> bool {
    match varint_size(data, 0) {
        None => false,
        Some(k0) => {
            let v0 = varint_value(data, 0);
            v0 < 0x1_0000_0000 && k0 + v0 <= data.len() && fields_ok(data, k0, k0 + v0)
        },
    }
}

/// Read the varint at `pos`: its size, and its value saturated at `2^32`.
fn take_varint(data: &[u8], pos: usize, fuel: u64) -> (r: Option<(usize, u64)>)
    ensures
        r is Some <==> varint_size_rec(data@, pos as int, fuel as nat) is Some,
        r matches Some((k, v)) ==> ({
            &&& k == varint_size_rec(data@, pos as int, fuel as nat)->0
            &&& k <= fuel
            &&& v == cap32(varint_value_rec(data@, pos as int, fuel as nat))
            &&& v <= 0x1_0000_0000u64
        }),
    decreases fuel,
{
    if fuel == 0 || pos >= data.len() {
        return None;
    }
    let b: u8 = data[pos];
    if b < 0x80 {
        return Some((1, b as u64));
    }
    match take_varint(data, pos + 1, fuel - 1) {
        None => None,
        Some((k, rest)) => {
            proof {
                lemma_varint_size_rec_bounds(data@, pos + 1 as int, (fuel - 1) as nat);
                lemma_varint_value_rec_nonneg(data@, pos + 1 as int, (fuel - 1) as nat);
            }
            let t: u64 = (b - 0x80) as u64 + 0x80 * rest;
            let v: u64 = if t > 0x1_0000_0000 {
                0x1_0000_0000
            } else {
                t
            };
            Some((k + 1, v))
        },
    }
}

/// Walk the fields of the message region `[pos, msg_end)`.
fn scan_fields(data: &[u8], pos: usize, msg_end: usize) -> (ok: bool)
    requires
        pos <= msg_end <= data@.len(),
    ensures
        ok == fields_ok(data@, pos as int, msg_end as int),
    decreases msg_end - pos,
{
    if pos >= msg_end {
        return true;
    }
    let kt: usize = match take_varint(data, pos, 10) {
        None => {
            return false;
        },
        Some((k, _)) => k,
    };
    proof {
        lemma_varint_size_rec_bounds(data@, pos as int, 10);
    }
    if kt > msg_end - pos {
        return false;
    }
    let wire: u8 = data[pos] % 8;
    let p: usize = pos + kt;
    if wire == 0 {
        match take_varint(data, p, 10) {
            None => false,
            Some((kv, _)) => {
                proof {
                    lemma_varint_size_rec_bounds(data@, p as int, 10);
                }
                if kv > msg_end - p {
                    false
                } else {
                    scan_fields(data, p + kv, msg_end)
                }
            },
        }
    } else if wire == 1 {
        if msg_end - p < 8 {
            false
        } else {
            scan_fields(data, p + 8, msg_end)
        }
    } else if wire == 2 {
        match take_varint(data, p, 10) {
            None => false,
            Some((kl, claim)) => {
                proof {
                    lemma_varint_size_rec_bounds(data@, p as int, 10);
                    lemma_varint_value_rec_nonneg(data@, p as int, 10);
                }
                if kl > msg_end - p {
                    return false;
                }
                if claim >= 0x1_0000_0000 {
                    return false;
                }
                let rem: usize = msg_end - (p + kl);
                if claim > rem as u64 {
                    return false;
                }
                scan_fields(data, p + kl + (claim as usize), msg_end)
            },
        }
    } else if wire == 5 {
        if msg_end - p < 4 {
            false
        } else {
            scan_fields(data, p + 4, msg_end)
        }
    } else {
        false
    }
}

/// The wire-framing check that admits account data to the protobuf parse:
/// on accepted data the parser's cursor arithmetic stays within the buffer,
/// so the parse returns instead of panicking on a corrupt length claim.
pub fn wire_format_ok(data: &[u8]) -> (ok: bool)
    ensures
        ok == wire_accepts(data@),
{
    match take_varint(data, 0, 10) {
        None => false,
        Some((k0, v0)) => {
            proof {
                lemma_varint_size_rec_bounds(data@, 0, 10);
                lemma_varint_value_rec_nonneg(data@, 0, 10);
            }
            if v0 >= 0x1_0000_0000 {
                return false;
            }
            let rem: usize = data.len() - k0;
            if v0 > rem as u64 {
                return false;
            }
            scan_fields(data, k0, k0 + (v0 as usize))
        },
    }
}

} // verus!
