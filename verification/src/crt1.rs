//! Start-up: copying the initialised data from flash to RAM, zeroing the
//! uninitialised data, and the flash lock page.  Memory is modelled as a
//! sequence of 32-bit words and the section bounds as word indices into it.
use vstd::prelude::*;
use vstd::arithmetic::div_mod::{lemma_mod_sub_multiples_vanish, lemma_small_mod};

verus! {

/// The linker-defined section bounds, as word indices: the initialised
/// data is stored from `etext` and belongs at `[srelocate, erelocate)`;
/// `[szero, ezero)` is the zero-initialised data.
#[derive(Clone, Copy, Debug, PartialEq, Eq, Structural)]
pub struct MemoryLayout {
    pub etext: usize,
    pub srelocate: usize,
    pub erelocate: usize,
    pub szero: usize,
    pub ezero: usize,
}

/// The number of words relocated.
pub open spec fn relocate_len(layout: MemoryLayout) -> int {
    if layout.srelocate < layout.erelocate {
        layout.erelocate - layout.srelocate
    } else {
        0
    }
}

/// The word a word-by-word forward copy from `src` to `dst` leaves at
/// `dst + k`, `mem` being the memory before the copy: the source word,
/// except that where the source starts before the destination and runs
/// into it, the first `dst - src` words repeat.
pub open spec fn relocated_word(mem: Seq<u32>, src: int, dst: int, k: int) -> u32 {
    if src < dst {
        mem[src + k % (dst - src)]
    } else {
        mem[src + k]
    }
}

/// The word at `i` after `init`, `mem` being the memory before it.
pub open spec fn initialised_word(mem: Seq<u32>, layout: MemoryLayout, i: int) -> u32 {
    if layout.szero <= i < layout.ezero {
        0
    } else if layout.srelocate <= i < layout.erelocate {
        relocated_word(mem, layout.etext as int, layout.srelocate as int, i - layout.srelocate)
    } else {
        mem[i]
    }
}

/// Initialises memory: copies the relocated section word by word from
/// `etext` to `[srelocate, erelocate)` (skipped when both start at the same
/// word), then zeroes `[szero, ezero)`.  The chip's interrupts are enabled
/// afterwards by the board.
pub fn init(mem: &mut [u32], layout: MemoryLayout)
    requires
        layout.etext != layout.srelocate && layout.srelocate < layout.erelocate ==> (
        layout.erelocate <= old(mem)@.len() && layout.etext + relocate_len(layout) <= old(
            mem,
        )@.len()),
        layout.szero < layout.ezero ==> layout.ezero <= old(mem)@.len(),
    ensures
        final(mem)@.len() == old(mem)@.len(),
        forall|i: int|
            0 <= i < old(mem)@.len() ==> #[trigger] final(mem)@[i] == initialised_word(
                old(mem)@,
                layout,
                i,
            ),
{
    let ghost m0 = mem@;
    let len = mem.len();
    let src0 = layout.etext;
    let dst0 = layout.srelocate;
    let mut p_src: usize = layout.etext;
    let mut p_dest: usize = layout.srelocate;
    if p_src != p_dest {
        while p_dest < layout.erelocate
            invariant
                src0 == layout.etext,
                dst0 == layout.srelocate,
                src0 != dst0,
                dst0 < layout.erelocate ==> layout.erelocate <= m0.len() && src0 + relocate_len(
                    layout,
                ) <= m0.len(),
                dst0 <= p_dest,
                dst0 < layout.erelocate ==> p_dest <= layout.erelocate,
                dst0 >= layout.erelocate ==> p_dest == dst0,
                p_src == src0 + (p_dest - dst0),
                mem@.len() == m0.len(),
                m0.len() == len,
                forall|i: int|
                    dst0 <= i < p_dest ==> #[trigger] mem@[i] == relocated_word(
                        m0,
                        src0 as int,
                        dst0 as int,
                        i - dst0,
                    ),
                forall|i: int|
                    0 <= i < m0.len() && !(dst0 <= i < p_dest) ==> #[trigger] mem@[i] == m0[i],
            decreases layout.erelocate - p_dest,
        {
            let k: Ghost<int> = Ghost(p_dest - dst0);
            proof {
                if src0 < dst0 {
                    let d: int = dst0 - src0;
                    if k@ < d {
                        lemma_small_mod(k@ as nat, d as nat);
                    } else {
                        lemma_mod_sub_multiples_vanish(k@, d);
                        assert(mem@[p_src as int] == relocated_word(
                            m0,
                            src0 as int,
                            dst0 as int,
                            k@ - d,
                        ));
                    }
                }
            }
            let w = mem[p_src];
            mem[p_dest] = w;
            p_dest = p_dest + 1;
            p_src = p_src + 1;
        }
        proof {
            assert forall|i: int| 0 <= i < m0.len() implies #[trigger] mem@[i] == (
            if layout.srelocate <= i < layout.erelocate {
                relocated_word(m0, layout.etext as int, layout.srelocate as int, i - layout.srelocate)
            } else {
                m0[i]
            }) by {
                if layout.srelocate <= i < layout.erelocate {
                    assert(p_dest == layout.erelocate);
                    assert(dst0 <= i < p_dest);
                    assert(mem@[i] == relocated_word(m0, src0 as int, dst0 as int, i - dst0));
                }
            }
        }
    }
    let ghost m1 = mem@;
    assert forall|i: int| 0 <= i < m0.len() implies #[trigger] m1[i] == (
    if layout.srelocate <= i < layout.erelocate {
        relocated_word(m0, layout.etext as int, layout.srelocate as int, i - layout.srelocate)
    } else {
        m0[i]
    }) by {
        if src0 == dst0 {
            assert(m1[i] == m0[i]);
        }
    }
    p_dest = layout.szero;
    while p_dest < layout.ezero
        invariant
            layout.szero <= p_dest,
            layout.szero < layout.ezero ==> p_dest <= layout.ezero && layout.ezero <= m0.len(),
            layout.szero >= layout.ezero ==> p_dest == layout.szero,
            mem@.len() == m0.len(),
            m1.len() == m0.len(),
            forall|i: int|
                0 <= i < m0.len() ==> #[trigger] m1[i] == (if layout.srelocate <= i
                    < layout.erelocate {
                    relocated_word(
                        m0,
                        layout.etext as int,
                        layout.srelocate as int,
                        i - layout.srelocate,
                    )
                } else {
                    m0[i]
                }),
            forall|i: int| layout.szero <= i < p_dest ==> #[trigger] mem@[i] == 0,
            forall|i: int|
                0 <= i < m0.len() && !(layout.szero <= i < p_dest) ==> #[trigger] mem@[i]
                    == m1[i],
        decreases layout.ezero - p_dest,
    {
        mem[p_dest] = 0;
        p_dest = p_dest + 1;
    }
    assert forall|i: int| 0 <= i < m0.len() implies #[trigger] mem@[i] == initialised_word(
        m0,
        layout,
        i,
    ) by {
    }
}

/// The flash lock page (customer configuration area) the bootloader reads.
#[allow(non_camel_case_types)]
pub struct flash_cca_lock_page_t {
    pub bootldr_cfg: u32,
    pub image_valid: u32,
    pub vector_table: u32,
    pub lock: [u8; 32],
}

impl flash_cca_lock_page_t {
    /// The lock page the board is built with: bootloader backdoor
    /// configuration `0xF6`, image marked valid, vector table at
    /// `0x00200000`, every page and debugging unlocked.
    pub fn ccfg_conf() -> (r: flash_cca_lock_page_t)
        ensures
            r.bootldr_cfg == 0xF6,
            r.image_valid == 0,
            r.vector_table == 0x00200000,
            forall|i: int| 0 <= i < 32 ==> #[trigger] r.lock@[i] == 0xFF,
    {
        flash_cca_lock_page_t {
            bootldr_cfg: 0xF6,
            image_valid: 0x0,
            vector_table: 0x00200000,
            lock: [0xFFu8; 32],
        }
    }
}


/// When the source of the relocated section does not start inside the
/// stretch just before its destination (the linker places it so), the
/// relocated section holds exactly the source words, and the zeroed section
/// holds zeros.
pub proof fn law_init_copies_and_zeroes(mem: Seq<u32>, layout: MemoryLayout, i: int)
    requires
        layout.etext >= layout.srelocate || layout.etext + relocate_len(layout)
            <= layout.srelocate,
        0 <= i < mem.len(),
    ensures
        layout.szero <= i < layout.ezero ==> initialised_word(mem, layout, i) == 0,
        !(layout.szero <= i < layout.ezero) && layout.srelocate <= i < layout.erelocate
            ==> initialised_word(mem, layout, i) == mem[layout.etext + (i - layout.srelocate)],
        !(layout.szero <= i < layout.ezero) && !(layout.srelocate <= i < layout.erelocate)
            ==> initialised_word(mem, layout, i) == mem[i],
{
    if !(layout.szero <= i < layout.ezero) && layout.srelocate <= i < layout.erelocate
        && layout.etext < layout.srelocate {
        let k = i - layout.srelocate;
        let d = layout.srelocate - layout.etext;
        lemma_small_mod(k as nat, d as nat);
    }
}


/// A forward copy whose source starts `d` words before its destination and
/// runs into it repeats: each copied word is the source word for the first
/// `d` words, and after that the word copied `d` places earlier.  Where the
/// source starts at or after the destination, each word is its source word.
pub proof fn law_forward_copy(mem: Seq<u32>, src: int, dst: int, k: int)
    requires
        0 <= k,
    ensures
        src < dst && k < dst - src ==> relocated_word(mem, src, dst, k) == mem[src + k],
        src < dst && k >= dst - src ==> relocated_word(mem, src, dst, k) == relocated_word(
            mem,
            src,
            dst,
            k - (dst - src),
        ),
        src >= dst ==> relocated_word(mem, src, dst, k) == mem[src + k],
{
    if src < dst {
        let d = dst - src;
        if k < d {
            lemma_small_mod(k as nat, d as nat);
        } else {
            lemma_mod_sub_multiples_vanish(k, d);
        }
    }
}

} // verus!
