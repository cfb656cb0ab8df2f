//! Proved laws of the instruction set: what the draw's collision flag
//! means, the register store/load round trip, and how the program counter
//! moves.

use vstd::prelude::*;

use crate::memory::MEMORY_SIZE;
use crate::state::{
    advanced, cycle_pre, cycle_spec, decode_family, decode_rest, draw_cells, draw_rows, fetched,
    index_after_regs, load_seq, op_7xnn, op_8xy4, op_8xy5, op_8xy6, op_8xy7, op_8xye, op_dxyn,
    op_fx55, op_fx65, sprite_bit_at, sprite_hits, sprite_offset, sprite_row_bit, step, store_seq,
    wrap_add8, State, GFX_SIZE,
};

verus! {

/// A sprite bit is 0 or 1.
proof fn lemma_sprite_bit_le_one(b: u8, col: int)
    ensures
        sprite_row_bit(b, col) <= 1,
{
    let sh = (7 - col) as u8;
    assert((b >> sh) & 1 <= 1) by (bit_vector);
}

/// XOR facts on pixels: XOR never leaves {0, 1}, cancels itself, and
/// compares for equality.
proof fn lemma_xor_facts(a: u8, b: u8)
    ensures
        ((a ^ b) == 0) <==> (a == b),
        (a ^ b) ^ b == a,
        a <= 1 && b <= 1 ==> (a ^ b) <= 1,
{
    assert((((a ^ b) == 0) <==> (a == b)) && ((a ^ b) ^ b == a) && (a <= 1 && b <= 1 ==> (a ^ b)
        <= 1)) by (bit_vector);
}

/// Pointwise meaning of one drawn sprite row: the pixels from `base` to
/// `base + ncols` (clipped at the framebuffer's end) take the XOR of
/// their sprite bit, every other pixel stays; the flag reports a pixel
/// that was lit and had a set sprite bit.
proof fn lemma_draw_cells_char(
    gfx: Seq<u8>,
    flag: bool,
    sprite: u8,
    sy: int,
    sx: int,
    row: int,
    ncols: int,
)
    requires
        gfx.len() == GFX_SIZE,
        0 <= ncols <= 8,
    ensures
        ({
            let r = draw_cells(gfx, flag, sprite, sy, sx, row, ncols);
            let base = (sy + row) * 64 + sx;
            &&& r.0.len() == GFX_SIZE
            &&& forall|p: int|
                0 <= p < GFX_SIZE ==> r.0[p] == (if base <= p < base + ncols {
                    gfx[p] ^ sprite_row_bit(sprite, p - base)
                } else {
                    gfx[p]
                })
            &&& (r.1 <==> (flag || exists|c: int|
                0 <= c < ncols && 0 <= base + c < GFX_SIZE && gfx[base + c] == 1
                    && #[trigger] sprite_row_bit(sprite, c) == 1))
        }),
    decreases ncols,
{
    let base = (sy + row) * 64 + sx;
    if ncols > 0 {
        let col = ncols - 1;
        lemma_draw_cells_char(gfx, flag, sprite, sy, sx, row, col);
        let prev = draw_cells(gfx, flag, sprite, sy, sx, row, col);
        let r = draw_cells(gfx, flag, sprite, sy, sx, row, ncols);
        let idx = base + col;
        let b = sprite_row_bit(sprite, col);
        if 0 <= idx < GFX_SIZE {
            assert(prev.0[idx] == gfx[idx]);
            lemma_xor_facts(gfx[idx], b);
            // The new cell collides exactly when the pixel was lit and
            // the bit is set.
            assert((gfx[idx] == 1 && (gfx[idx] ^ b) == 0) <==> (gfx[idx] == 1 && b == 1)) by {
                let a = gfx[idx];
                assert((a == 1 && (a ^ b) == 0) <==> (a == 1 && b == 1)) by (bit_vector);
            }
            if r.1 && !prev.1 {
                assert(gfx[idx] == 1 && b == 1);
                assert(0 <= col < ncols && 0 <= base + col < GFX_SIZE && gfx[base + col] == 1
                    && sprite_row_bit(sprite, col) == 1);
            }
            if !r.1 {
                assert(forall|c: int|
                    0 <= c < ncols && 0 <= base + c < GFX_SIZE && gfx[base + c] == 1
                        && #[trigger] sprite_row_bit(sprite, c) == 1 ==> false);
            }
        } else {
            assert(r == prev);
        }
    }
}

/// Pointwise meaning of a whole draw: a pixel the sprite hits takes the
/// XOR of its sprite bit, every other pixel stays; the flag reports some
/// hit pixel that was lit and had a set sprite bit.
proof fn lemma_draw_rows_char(
    gfx: Seq<u8>,
    flag: bool,
    mem: Seq<u8>,
    i: int,
    sy: int,
    sx: int,
    n: int,
)
    requires
        gfx.len() == GFX_SIZE,
        0 <= n,
        0 <= sy,
        0 <= sx,
    ensures
        ({
            let r = draw_rows(gfx, flag, mem, i, sy, sx, n);
            &&& r.0.len() == GFX_SIZE
            &&& forall|p: int|
                0 <= p < GFX_SIZE ==> r.0[p] == (if sprite_hits(sy, sx, n, p) {
                    gfx[p] ^ sprite_bit_at(mem, i, sy, sx, p)
                } else {
                    gfx[p]
                })
            &&& (r.1 <==> (flag || exists|p: int|
                #[trigger] sprite_hits(sy, sx, n, p) && gfx[p] == 1 && sprite_bit_at(
                    mem,
                    i,
                    sy,
                    sx,
                    p,
                ) == 1))
        }),
    decreases n,
{
    if n > 0 {
        let row = n - 1;
        lemma_draw_rows_char(gfx, flag, mem, i, sy, sx, row);
        let prev = draw_rows(gfx, flag, mem, i, sy, sx, row);
        let sprite = mem[i + row];
        lemma_draw_cells_char(prev.0, prev.1, sprite, sy, sx, row, 8);
        let r = draw_rows(gfx, flag, mem, i, sy, sx, n);
        let base = (sy + row) * 64 + sx;

        // Tie the flat offset arithmetic to row and column numbers.
        assert forall|p: int| base <= p < base + 8 implies sprite_offset(sy, sx, p) / 64 == row
            && sprite_offset(sy, sx, p) % 64 == p - base by {
            let d = sprite_offset(sy, sx, p);
            vstd::arithmetic::div_mod::lemma_fundamental_div_mod_converse(d, 64, row, p - base);
        }
        assert forall|p: int|
            0 <= sprite_offset(sy, sx, p) && #[trigger] (sprite_offset(sy, sx, p) / 64) == row
                && sprite_offset(sy, sx, p) % 64 < 8 implies base <= p < base + 8 by {
            let d = sprite_offset(sy, sx, p);
            vstd::arithmetic::div_mod::lemma_fundamental_div_mod(d, 64);
        }

        // The freshly drawn row was untouched by the earlier rows.
        assert forall|p: int| base <= p < base + 8 implies !sprite_hits(sy, sx, row, p) by {
            let d = sprite_offset(sy, sx, p);
            assert(d / 64 == row);
        }

        // Pixel values.
        assert forall|p: int| 0 <= p < GFX_SIZE implies r.0[p] == (if sprite_hits(sy, sx, n, p) {
            gfx[p] ^ sprite_bit_at(mem, i, sy, sx, p)
        } else {
            gfx[p]
        }) by {
            let d = sprite_offset(sy, sx, p);
            if base <= p < base + 8 {
                assert(prev.0[p] == gfx[p]);
                assert(sprite_hits(sy, sx, n, p));
                assert(sprite_bit_at(mem, i, sy, sx, p) == sprite_row_bit(sprite, p - base));
            } else {
                if sprite_hits(sy, sx, n, p) {
                    assert(0 <= d);
                    assert(d / 64 <= row);
                    if d / 64 == row {
                        assert(base <= p < base + 8);
                    }
                    assert(sprite_hits(sy, sx, row, p));
                } else {
                    if sprite_hits(sy, sx, row, p) {
                        assert(sprite_hits(sy, sx, n, p));
                    }
                }
            }
        }

        // Collision flag, both directions.
        if prev.1 && !flag {
            let p = choose|p: int|
                #[trigger] sprite_hits(sy, sx, row, p) && gfx[p] == 1 && sprite_bit_at(
                    mem,
                    i,
                    sy,
                    sx,
                    p,
                ) == 1;
            assert(sprite_hits(sy, sx, n, p) && gfx[p] == 1 && sprite_bit_at(mem, i, sy, sx, p)
                == 1);
        }
        if r.1 && !prev.1 {
            let c = choose|c: int|
                0 <= c < 8 && 0 <= base + c < GFX_SIZE && prev.0[base + c] == 1
                    && #[trigger] sprite_row_bit(sprite, c) == 1;
            let p = base + c;
            assert(prev.0[p] == gfx[p]);
            assert(sprite_hits(sy, sx, n, p) && gfx[p] == 1 && sprite_bit_at(mem, i, sy, sx, p)
                == 1);
        }
        if !r.1 {
            assert(!prev.1);
            assert forall|p: int|
                #[trigger] sprite_hits(sy, sx, n, p) && gfx[p] == 1 && sprite_bit_at(
                    mem,
                    i,
                    sy,
                    sx,
                    p,
                ) == 1 implies false by {
                let d = sprite_offset(sy, sx, p);
                if d / 64 == row {
                    assert(base <= p < base + 8);
                    let c = p - base;
                    assert(prev.0[base + c] == 1 && sprite_row_bit(sprite, c) == 1);
                } else {
                    assert(sprite_hits(sy, sx, row, p));
                }
            }
        }
    }
}

/// The plain add 7XNN wraps modulo 256 and, for any destination register
/// but VF itself, leaves VF alone.
pub proof fn lemma_add_wraps_no_flag(s: State, x: int, nn: u8)
    requires
        s.wf(),
        0 <= x < 16,
        x != 15,
    ensures
        op_7xnn(s, x, nn).v[x] == wrap_add8(s.v[x], nn),
        op_7xnn(s, x, nn).v[x] == ((s.v[x] + nn) % 256) as u8,
        op_7xnn(s, x, nn).v[15] == s.v[15],
{
}

/// The arithmetic flags: 8XY4 sets VF exactly on a sum over 255; 8XY5
/// sets it exactly when VX >= VY held before the subtraction; 8XY7
/// exactly when VY >= VX held.
pub proof fn lemma_arith_flags(s: State, x: int, y: int)
    requires
        s.wf(),
        0 <= x < 16,
        0 <= y < 16,
    ensures
        op_8xy4(s, x, y).v[15] == 1 <==> s.v[x] + s.v[y] > 255,
        op_8xy5(s, x, y).v[15] == 1 <==> s.v[x] >= s.v[y],
        op_8xy7(s, x, y).v[15] == 1 <==> s.v[y] >= s.v[x],
{
}

/// The shifts 8XY6 and 8XYE always put the bit shifted out into VF, for
/// every destination register, and shift the source register into VX;
/// the source is VY exactly in the Original dialect and VX itself
/// otherwise. When VF is itself the destination, the flag — written
/// last — is what remains in it.
pub proof fn lemma_shift_flags(s: State, x: int, y: int)
    requires
        s.wf(),
        0 <= x < 16,
        0 <= y < 16,
    ensures
        ({
            let src = if s.compatibility is Original {
                s.v[y]
            } else {
                s.v[x]
            };
            &&& op_8xy6(s, x, y).v[15] == (src & 1)
            &&& x != 15 ==> op_8xy6(s, x, y).v[x] == (src >> 1u8)
            &&& op_8xye(s, x, y).v[15] == ((src & 0x80) >> 7u8)
            &&& x != 15 ==> op_8xye(s, x, y).v[x] == (src << 1u8)
        }),
{
}

/// The draw's collision flag is 1 exactly when at least one framebuffer
/// pixel goes from lit to unlit during the draw.
pub proof fn lemma_draw_collision_iff(s: State, x: int, y: int, n: int)
    requires
        s.wf(),
        0 <= x < 16,
        0 <= y < 16,
        0 <= n,
    ensures
        ({
            let t = op_dxyn(s, x, y, n);
            t.v[15] == 1 <==> exists|p: int|
                0 <= p < GFX_SIZE && s.gfx[p] == 1 && #[trigger] t.gfx[p] == 0
        }),
{
    let sx = (s.v[x] % 64) as int;
    let sy = (s.v[y] % 64) as int;
    let i = s.i as int;
    let t = op_dxyn(s, x, y, n);
    lemma_draw_rows_char(s.gfx, false, s.mem, i, sy, sx, n);
    let r = draw_rows(s.gfx, false, s.mem, i, sy, sx, n);
    if r.1 {
        let p = choose|p: int|
            #[trigger] sprite_hits(sy, sx, n, p) && s.gfx[p] == 1 && sprite_bit_at(
                s.mem,
                i,
                sy,
                sx,
                p,
            ) == 1;
        lemma_xor_facts(s.gfx[p], sprite_bit_at(s.mem, i, sy, sx, p));
        assert(0 <= p < GFX_SIZE && s.gfx[p] == 1 && t.gfx[p] == 0);
    } else {
        assert forall|p: int| 0 <= p < GFX_SIZE && s.gfx[p] == 1 implies #[trigger] t.gfx[p] != 0
        by {
            if sprite_hits(sy, sx, n, p) {
                let b = sprite_bit_at(s.mem, i, sy, sx, p);
                lemma_xor_facts(s.gfx[p], b);
                assert(b != 1);
                let d = sprite_offset(sy, sx, p);
                lemma_sprite_bit_le_one(s.mem[i + d / 64], d % 64);
                assert(t.gfx[p] == (1u8 ^ 0u8)) by {
                    assert(b == 0);
                }
                assert((1u8 ^ 0u8) == 1u8) by (bit_vector);
            }
        }
    }
}

/// Drawing the same sprite twice at the same spot restores the
/// framebuffer exactly; the second draw reports a collision exactly when
/// the first draw lit a pixel that was unlit before it. Stated for
/// coordinate registers other than VF, whose value the first draw's flag
/// overwrites.
pub proof fn lemma_draw_twice(s: State, x: int, y: int, n: int)
    requires
        s.wf(),
        0 <= x < 16,
        x != 15,
        0 <= y < 16,
        y != 15,
        0 <= n,
    ensures
        ({
            let t = op_dxyn(s, x, y, n);
            let u = op_dxyn(t, x, y, n);
            let sx = (s.v[x] % 64) as int;
            let sy = (s.v[y] % 64) as int;
            &&& u.gfx == s.gfx
            &&& (u.v[15] == 1 <==> exists|p: int|
                #[trigger] sprite_hits(sy, sx, n, p) && s.gfx[p] == 0 && sprite_bit_at(
                    s.mem,
                    s.i as int,
                    sy,
                    sx,
                    p,
                ) == 1)
        }),
{
    let sx = (s.v[x] % 64) as int;
    let sy = (s.v[y] % 64) as int;
    let i = s.i as int;
    let t = op_dxyn(s, x, y, n);
    let u = op_dxyn(t, x, y, n);
    lemma_draw_rows_char(s.gfx, false, s.mem, i, sy, sx, n);
    assert(t.v[x] == s.v[x] && t.v[y] == s.v[y] && t.mem == s.mem && t.i == s.i);
    lemma_draw_rows_char(t.gfx, false, t.mem, i, sy, sx, n);
    let r2 = draw_rows(t.gfx, false, t.mem, i, sy, sx, n);

    assert forall|p: int| 0 <= p < GFX_SIZE implies u.gfx[p] == s.gfx[p] by {
        if sprite_hits(sy, sx, n, p) {
            let b = sprite_bit_at(s.mem, i, sy, sx, p);
            lemma_xor_facts(s.gfx[p], b);
            assert(u.gfx[p] == (s.gfx[p] ^ b) ^ b);
        }
    }
    assert(u.gfx =~= s.gfx);

    assert forall|p: int| #[trigger] sprite_hits(sy, sx, n, p) implies (t.gfx[p] == 1
        && sprite_bit_at(s.mem, i, sy, sx, p) == 1) == (s.gfx[p] == 0 && sprite_bit_at(
        s.mem,
        i,
        sy,
        sx,
        p,
    ) == 1) by {
        let b = sprite_bit_at(s.mem, i, sy, sx, p);
        if b == 1 {
            let a = s.gfx[p];
            assert(a <= 1 ==> (((a ^ 1) == 1) <==> (a == 0))) by (bit_vector);
        }
    }
    if r2.1 {
        let p = choose|p: int|
            #[trigger] sprite_hits(sy, sx, n, p) && t.gfx[p] == 1 && sprite_bit_at(
                t.mem,
                i,
                sy,
                sx,
                p,
            ) == 1;
        assert(sprite_hits(sy, sx, n, p) && s.gfx[p] == 0 && sprite_bit_at(s.mem, i, sy, sx, p)
            == 1);
    } else {
        assert forall|p: int|
            #[trigger] sprite_hits(sy, sx, n, p) && s.gfx[p] == 0 && sprite_bit_at(
                s.mem,
                i,
                sy,
                sx,
                p,
            ) == 1 implies false by {
            assert(t.gfx[p] == 1 && sprite_bit_at(t.mem, i, sy, sx, p) == 1);
        }
    }
}

/// Memory after a register store: the stored window holds the registers,
/// everything else is untouched.
proof fn lemma_store_seq_char(mem: Seq<u8>, v: Seq<u8>, i: int, cnt: int)
    requires
        0 <= cnt,
        0 <= i,
        i + cnt <= mem.len(),
    ensures
        ({
            let m2 = store_seq(mem, v, i, cnt);
            &&& m2.len() == mem.len()
            &&& forall|p: int|
                0 <= p < mem.len() ==> m2[p] == (if i <= p < i + cnt {
                    v[p - i]
                } else {
                    mem[p]
                })
        }),
    decreases cnt,
{
    if cnt > 0 {
        lemma_store_seq_char(mem, v, i, cnt - 1);
    }
}

/// Registers after a register load: the first `cnt` hold the memory
/// window, the rest are untouched.
proof fn lemma_load_seq_char(v: Seq<u8>, mem: Seq<u8>, i: int, cnt: int)
    requires
        0 <= cnt <= v.len(),
    ensures
        ({
            let v2 = load_seq(v, mem, i, cnt);
            &&& v2.len() == v.len()
            &&& forall|k: int|
                0 <= k < v.len() ==> v2[k] == (if k < cnt {
                    mem[i + k]
                } else {
                    v[k]
                })
        }),
    decreases cnt,
{
    if cnt > 0 {
        lemma_load_seq_char(v, mem, i, cnt - 1);
    }
}

/// Storing V0..VX and then loading V0..VX back from the same base
/// address reproduces the registers exactly, in both dialects; I ends up
/// advanced by X+1 in the Original dialect and unchanged in the New one,
/// after each of the two operations.
pub proof fn lemma_store_load_round_trip(s: State, x: int)
    requires
        s.wf(),
        0 <= x < 16,
        s.i + x + 1 <= MEMORY_SIZE,
    ensures
        ({
            let t = op_fx55(s, x);
            let u = op_fx65(State { i: s.i, ..t }, x);
            &&& u.v == s.v
            &&& u.mem == t.mem
            &&& t.i == index_after_regs(s, x)
            &&& u.i == index_after_regs(s, x)
        }),
{
    lemma_store_seq_char(s.mem, s.v, s.i as int, x + 1);
    let t = op_fx55(s, x);
    lemma_load_seq_char(s.v, t.mem, s.i as int, x + 1);
    let u = op_fx65(State { i: s.i, ..t }, x);
    assert(u.v =~= s.v);
}

/// Whether an instruction moves the program counter somewhere of its own
/// choosing: a jump, a call, or a return.
pub open spec fn is_control_transfer(instruction: u16) -> bool {
    let f = decode_family(instruction);
    ||| f == 0x1
    ||| f == 0x2
    ||| f == 0xB
    ||| (f == 0x0 && decode_rest(instruction) == 0x0EE)
}

/// Outside explicit jumps, calls and returns, a cycle keeps the program
/// counter even (given it was even) and never moves it backward: plain
/// instructions advance it by 2, a taken skip by 4, and the key wait can
/// hold it in place.
#[verifier::rlimit(50)]
pub proof fn lemma_pc_even_monotone(s: State, rnd: u8, key: Option<u8>, ticks: u64)
    requires
        s.wf(),
        s.pc % 2 == 0,
        cycle_pre(s),
        !is_control_transfer(fetched(s)),
    ensures
        ({
            let t = cycle_spec(s, rnd, key, ticks).0;
            &&& t.pc % 2 == 0
            &&& s.pc <= t.pc
        }),
{
    let ins = fetched(s);
    let f = decode_family(ins);
    let rest = decode_rest(ins);
    let a = advanced(s);
    let st = step(a, f, rest, rnd, key);
    assert(a.pc == s.pc + 2);
    if st is Ok {
        let t2 = st->Ok_0;
        assert(t2.pc == a.pc || t2.pc == a.pc + 2 || t2.pc == s.pc);
    }
}

} // verus!
