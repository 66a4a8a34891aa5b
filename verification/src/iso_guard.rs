//! Load-time framing check of an optical-disc image. The decoder splits
//! directory records whose identifier field is length-prefixed; a record
//! whose identifier length runs past its 2048-byte block turns into a panic
//! inside the decoder instead of a typed error, and a directory extent
//! length near the 32-bit maximum overflows the decoder's block-count
//! rounding. This check walks every directory reachable from the root
//! exactly as the decoder's record iterator does, and accepts the image
//! only if no reachable record can trip either failure — so name lookups on
//! a loaded volume always return.
use vstd::prelude::*;

verus! {

/// Little-endian 32-bit value at byte offset `i`.
pub open spec fn le32_of(data: Seq<u8>, i: int) -> u32 {
    (data[i] as u32) | ((data[i + 1] as u32) << 8u32) | ((data[i + 2] as u32) << 16u32) | ((data[i
        + 3] as u32) << 24u32)
}

/// Little-endian 32-bit value at byte offset `i`.
fn read_le32(data: &Vec<u8>, i: usize) -> (r: u32)
    requires
        i + 4 <= data@.len(),
    ensures
        r == le32_of(data@, i as int),
{
    let dlen = data.len();
    proof {
        assert(i + 4 <= dlen);
    }
    (data[i] as u32) | ((data[i + 1] as u32) << 8u32) | ((data[i + 2] as u32) << 16u32) | ((data[i
        + 3] as u32) << 24u32)
}

/// Whether a volume descriptor's magic tag and version stand at the block
/// that starts at byte offset `off`.
pub open spec fn has_descriptor_tag(data: Seq<u8>, off: int) -> bool {
    &&& data[off + 1] == 67
    &&& data[off + 2] == 68
    &&& data[off + 3] == 48
    &&& data[off + 4] == 48
    &&& data[off + 5] == 49
    &&& data[off + 6] == 1
}

/// The root directory extent (location, byte length) the decoder will use:
/// the last primary descriptor's root record before the set terminator,
/// scanning from block 16. Nothing when the descriptor scan runs off the
/// image or meets a bad tag, in which case the decoder itself reports a
/// typed error and no volume is created.
pub open spec fn spec_scan_root(data: Seq<u8>, lba: int, root: Option<(u32, u32)>) -> Option<
    (u32, u32),
>
    decreases data.len() - 2048 * lba,
    when 0 <= lba
{
    if 2048 * lba + 2048 > data.len() {
        None
    } else if !has_descriptor_tag(data, 2048 * lba) {
        None
    } else if data[2048 * lba] == 255 {
        root
    } else if data[2048 * lba] == 1 {
        spec_scan_root(
            data,
            lba + 1,
            Some((le32_of(data, 2048 * lba + 158), le32_of(data, 2048 * lba + 166))),
        )
    } else {
        spec_scan_root(data, lba + 1, root)
    }
}

fn scan_root(data: &Vec<u8>, lba: usize, root: Option<(u32, u32)>) -> (r: Option<(u32, u32)>)
    ensures
        r == spec_scan_root(data@, lba as int, root),
    decreases data@.len() - 2048 * lba,
{
    let off128 = (lba as u128) * 2048;
    if off128 + 2048 > data.len() as u128 {
        return None;
    }
    let off = lba * 2048;
    if !(data[off + 1] == 67 && data[off + 2] == 68 && data[off + 3] == 48 && data[off + 4] == 48
        && data[off + 5] == 49 && data[off + 6] == 1) {
        return None;
    }
    let kind = data[off];
    if kind == 255 {
        root
    } else if kind == 1 {
        let loc = read_le32(data, off + 158);
        let len = read_le32(data, off + 166);
        scan_root(data, lba + 1, Some((loc, len)))
    } else {
        scan_root(data, lba + 1, root)
    }
}

/// Whether the decoder's record iterator can split every record it visits
/// in the 2048-byte block at `base`. The iterator parses the record at `p`
/// — its identifier length byte sits 32 bytes in and must keep the whole
/// record inside the block — then advances by the record's own length byte,
/// and moves on at a zero byte or within the block's last 33 bytes.
pub open spec fn spec_block_safe(data: Seq<u8>, base: int, p: int) -> bool
    decreases 2047 - p,
    when 0 <= p <= 2014
{
    if p + 33 + data[base + p + 32] > 2048 {
        false
    } else {
        let q = p + data[base + p];
        if q >= 2015 || data[base + q] == 0 {
            true
        } else {
            spec_block_safe(data, base, q)
        }
    }
}

/// The directory children the iterator yields from the block at `base`, in
/// visit order: extent location and byte length of every visited record
/// whose directory flag (bit 1 of the flags byte, 25 bytes in) is set.
pub open spec fn spec_block_children(data: Seq<u8>, base: int, p: int) -> Seq<(u32, u32)>
    decreases 2047 - p,
    when 0 <= p <= 2014
{
    let here: Seq<(u32, u32)> = if data[base + p + 25] & 2 != 0 {
        seq![(le32_of(data, base + p + 2), le32_of(data, base + p + 10))]
    } else {
        Seq::empty()
    };
    let q = p + data[base + p];
    if q >= 2015 || data[base + q] == 0 {
        here
    } else {
        here + spec_block_children(data, base, q)
    }
}

fn walk_block(data: &Vec<u8>, base: usize, p: usize, work: &mut Vec<(u32, u32)>) -> (r: bool)
    requires
        base + 2048 <= data@.len(),
        p <= 2014,
    ensures
        r == spec_block_safe(data@, base as int, p as int),
        r ==> final(work)@ == old(work)@ + spec_block_children(data@, base as int, p as int),
    decreases 2047 - p,
{
    let dlen = data.len();
    proof {
        assert(base + p + 32 < dlen);
    }
    let id_len = data[base + p + 32];
    if p + 33 + (id_len as usize) > 2048 {
        return false;
    }
    let ghost here: Seq<(u32, u32)> = if data@[base + p + 25] & 2 != 0 {
        seq![(le32_of(data@, base + p + 2), le32_of(data@, base + p + 10))]
    } else {
        Seq::empty()
    };
    if data[base + p + 25] & 2 != 0 {
        let loc = read_le32(data, base + p + 2);
        let len = read_le32(data, base + p + 10);
        work.push((loc, len));
    }
    proof {
        assert(work@ =~= old(work)@ + here);
    }
    let l = data[base + p];
    let q = p + (l as usize);
    if q >= 2015 || data[base + q] == 0 {
        proof {
            assert(work@ =~= old(work)@ + spec_block_children(data@, base as int, p as int));
        }
        return true;
    }
    let ok = walk_block(data, base, q, work);
    proof {
        if ok {
            assert(work@ =~= old(work)@ + spec_block_children(data@, base as int, p as int));
        }
    }
    ok
}

/// Whether every block the iterator enters in a directory extent is safe to
/// split. A block lying past the image's end stops the iterator with a
/// typed short-read error, so the walk stops there too.
pub open spec fn spec_dir_safe(data: Seq<u8>, loc: u32, blocks: u32, bn: u32) -> bool
    decreases blocks - bn,
    when bn <= blocks
{
    if bn >= blocks {
        true
    } else {
        let base = (loc + bn) * 2048;
        if base + 2048 > data.len() {
            true
        } else {
            spec_block_safe(data, base, 0) && spec_dir_safe(data, loc, blocks, (bn + 1) as u32)
        }
    }
}

/// The directory children the iterator yields from a directory extent, in
/// visit order, stopping where the extent leaves the image.
pub open spec fn spec_dir_children(data: Seq<u8>, loc: u32, blocks: u32, bn: u32) -> Seq<(u32, u32)>
    decreases blocks - bn,
    when bn <= blocks
{
    if bn >= blocks {
        Seq::empty()
    } else {
        let base = (loc + bn) * 2048;
        if base + 2048 > data.len() {
            Seq::empty()
        } else {
            spec_block_children(data, base, 0) + spec_dir_children(data, loc, blocks, (bn + 1) as u32)
        }
    }
}

fn walk_dir(data: &Vec<u8>, loc: u32, blocks: u32, bn: u32, work: &mut Vec<(u32, u32)>) -> (r: bool)
    requires
        bn <= blocks,
    ensures
        r == spec_dir_safe(data@, loc, blocks, bn),
        r ==> final(work)@ == old(work)@ + spec_dir_children(data@, loc, blocks, bn),
    decreases blocks - bn,
{
    if bn >= blocks {
        proof {
            assert(work@ =~= old(work)@ + spec_dir_children(data@, loc, blocks, bn));
        }
        return true;
    }
    let base128 = ((loc as u128) + (bn as u128)) * 2048;
    if base128 + 2048 > data.len() as u128 {
        proof {
            assert(work@ =~= old(work)@ + spec_dir_children(data@, loc, blocks, bn));
        }
        return true;
    }
    let base = ((loc as u64 + bn as u64) * 2048) as usize;
    if !walk_block(data, base, 0, work) {
        return false;
    }
    let ok = walk_dir(data, loc, blocks, bn + 1, work);
    proof {
        if ok {
            assert(work@ =~= old(work)@ + spec_dir_children(data@, loc, blocks, bn));
        }
    }
    ok
}

/// Queue the children that were not visited yet, marking each as visited.
/// A child counts as new if its (location, length) pair was not seen: the
/// decoder iterates an entry with the entry's own recorded length, so the
/// same location under a different length is a different walk.
pub open spec fn spec_enqueue(
    children: Seq<(u32, u32)>,
    work: Seq<(u32, u32)>,
    visited: Seq<(u32, u32)>,
) -> (Seq<(u32, u32)>, Seq<(u32, u32)>)
    decreases children.len(),
{
    if children.len() == 0 {
        (work, visited)
    } else {
        let c = children[0];
        if visited.contains(c) {
            spec_enqueue(children.drop_first(), work, visited)
        } else {
            spec_enqueue(children.drop_first(), work.push(c), visited.push(c))
        }
    }
}

fn contains_extent(visited: &Vec<(u32, u32)>, x: (u32, u32)) -> (r: bool)
    ensures
        r == visited@.contains(x),
{
    let mut i: usize = 0;
    while i < visited.len()
        invariant
            i <= visited@.len(),
            forall|j: int| 0 <= j < i ==> visited@[j] != x,
        decreases visited@.len() - i,
    {
        if visited[i].0 == x.0 && visited[i].1 == x.1 {
            return true;
        }
        i = i + 1;
    }
    false
}

fn enqueue_children(
    children: &Vec<(u32, u32)>,
    work: &mut Vec<(u32, u32)>,
    visited: &mut Vec<(u32, u32)>,
)
    ensures
        final(work)@ == spec_enqueue(children@, old(work)@, old(visited)@).0,
        final(visited)@ == spec_enqueue(children@, old(work)@, old(visited)@).1,
{
    proof {
        assert(children@.skip(0) =~= children@);
    }
    let mut i: usize = 0;
    while i < children.len()
        invariant
            i <= children@.len(),
            spec_enqueue(children@, old(work)@, old(visited)@) == spec_enqueue(
                children@.skip(i as int),
                work@,
                visited@,
            ),
        decreases children@.len() - i,
    {
        let c = children[i];
        proof {
            assert(children@.skip(i as int)[0] == children@[i as int]);
            assert(children@.skip(i as int).drop_first() =~= children@.skip(i + 1));
        }
        if !contains_extent(visited, c) {
            visited.push(c);
            work.push(c);
        }
        i = i + 1;
    }
    proof {
        assert(children@.skip(children@.len() as int) =~= Seq::<(u32, u32)>::empty());
    }
}

/// Whether every directory reachable from the work list is safe to search,
/// within the given step budget. Each step takes one directory: its extent
/// length must leave the decoder's 32-bit block-count rounding whole, every
/// record the iterator would visit must split cleanly, and its unvisited
/// directory children join the list.
pub open spec fn spec_bfs(
    data: Seq<u8>,
    work: Seq<(u32, u32)>,
    visited: Seq<(u32, u32)>,
    fuel: nat,
) -> bool
    decreases fuel,
{
    if work.len() == 0 {
        true
    } else if fuel == 0 {
        false
    } else {
        let c = work.last();
        let rest = work.drop_last();
        if c.1 > 0xFFFF_F800u32 {
            false
        } else {
            let blocks = if c.1 == 0 {
                1u32
            } else {
                (((c.1 as int) + 2047) / 2048) as u32
            };
            if !spec_dir_safe(data, c.0, blocks, 0) {
                false
            } else {
                let wv = spec_enqueue(spec_dir_children(data, c.0, blocks, 0), rest, visited);
                spec_bfs(data, wv.0, wv.1, (fuel - 1) as nat)
            }
        }
    }
}

/// Whether the image is safe to search: every directory reachable from the
/// decoder's root splits record by record, and no reachable extent length
/// overflows the decoder's block rounding. An image whose descriptor scan
/// already fails is trivially safe, since loading it yields a typed error
/// and no volume. The step budget — one step per distinct reachable
/// directory — is one per image block plus a margin, which no well-formed
/// image exceeds.
pub open spec fn spec_searchable(data: Seq<u8>) -> bool {
    match spec_scan_root(data, 16, None) {
        None => true,
        Some(root) => spec_bfs(
            data,
            seq![root],
            seq![root],
            (data.len() / 2048 + 16) as nat,
        ),
    }
}

/// Decide `spec_searchable` for an image.
pub fn image_searchable(data: &Vec<u8>) -> (r: bool)
    ensures
        r == spec_searchable(data@),
{
    let root = match scan_root(data, 16, None) {
        None => {
            return true;
        },
        Some(rt) => rt,
    };
    let mut work: Vec<(u32, u32)> = Vec::new();
    work.push(root);
    let mut visited: Vec<(u32, u32)> = Vec::new();
    visited.push(root);
    let mut fuel: usize = data.len() / 2048 + 16;
    proof {
        assert(work@ =~= seq![root]);
        assert(visited@ =~= seq![root]);
    }
    loop
        invariant
            spec_searchable(data@) == spec_bfs(data@, work@, visited@, fuel as nat),
        decreases fuel,
    {
        if work.len() == 0 {
            return true;
        }
        if fuel == 0 {
            return false;
        }
        fuel = fuel - 1;
        let c = match work.pop() {
            Some(c) => c,
            None => {
                proof {
                    assert(false);
                }
                return false;
            },
        };
        if c.1 > 0xFFFF_F800 {
            return false;
        }
        let blocks: u32 = if c.1 == 0 {
            1
        } else {
            ((c.1 as u64 + 2047) / 2048) as u32
        };
        let mut children: Vec<(u32, u32)> = Vec::new();
        if !walk_dir(data, c.0, blocks, 0, &mut children) {
            return false;
        }
        enqueue_children(&children, &mut work, &mut visited);
    }
}

} // verus!
