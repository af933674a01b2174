//! The socket-selection programs attached to a reuse-port group so that the
//! kernel delivers each QUIC datagram to the worker named by its connection
//! id: an eBPF program, and a classic BPF program as the fallback.

use vstd::prelude::*;
use crate::quic::spec_quic_worker_index;

verus! {

/// One classic BPF instruction.
#[derive(Clone, Copy, Debug, PartialEq, Eq, Structural)]
pub struct SockFilter {
    pub code: u16,
    pub jt: u8,
    pub jf: u8,
    pub k: u32,
}

/// One eBPF instruction; the destination register sits in the low four bits
/// of `dst_src` and the source register in the high four.
#[derive(Clone, Copy, Debug, PartialEq, Eq, Structural)]
pub struct BpfInsn {
    pub code: u8,
    pub dst_src: u8,
    pub off: i16,
    pub imm: i32,
}

/// The architectures whose `bpf` system call number is known.
#[derive(Clone, Copy, Debug, PartialEq, Eq, Structural)]
pub enum TargetArch {
    X86_64,
    Aarch64,
    Riscv64,
    Arm,
    Powerpc64,
    S390x,
    Other,
}

pub open spec fn spec_bpf_insn(code: u8, dst: u8, src: u8, off: i16, imm: i32) -> BpfInsn {
    BpfInsn { code, dst_src: dst | (src << 4u8), off, imm }
}

pub open spec fn spec_sock_filter(code: u16, jt: u8, jf: u8, k: u32) -> SockFilter {
    SockFilter { code, jt, jf, k }
}

/// Builds an eBPF instruction from its fields.
pub fn bpf_insn(code: u8, dst: u8, src: u8, off: i16, imm: i32) -> (res: BpfInsn)
    ensures
        res == spec_bpf_insn(code, dst, src, off, imm),
{
    BpfInsn { code, dst_src: dst | (src << 4u8), off, imm }
}

/// Builds a classic BPF instruction from its fields.
pub fn sock_filter(code: u16, jt: u8, jf: u8, k: u32) -> (res: SockFilter)
    ensures
        res == spec_sock_filter(code, jt, jf, k),
{
    SockFilter { code, jt, jf, k }
}

/// The classic BPF program: load the first byte; if the long-header bit is
/// set load the half-word at offset 6 (the first two bytes of the
/// destination connection id), else the half-word at offset 1; return it
/// modulo the worker count.
pub open spec fn spec_quic_reuseport_cbpf(workers: usize) -> Seq<SockFilter> {
    seq![
        spec_sock_filter(0x00u16 | 0x10u16 | 0x20u16, 0, 0, 0),
        spec_sock_filter(0x05u16 | 0x40u16 | 0x00u16, 0, 2, 0x80),
        spec_sock_filter(0x00u16 | 0x08u16 | 0x20u16, 0, 0, 6),
        spec_sock_filter(0x05u16 | 0x00u16, 0, 0, 1),
        spec_sock_filter(0x00u16 | 0x08u16 | 0x20u16, 0, 0, 1),
        spec_sock_filter(0x04u16 | 0x90u16 | 0x00u16, 0, 0, workers as u32),
        spec_sock_filter(0x06u16 | 0x10u16, 0, 0, 0),
    ]
}

/// Builds the classic BPF reuse-port program for `workers` workers.
pub fn quic_reuseport_cbpf(workers: usize) -> (res: Vec<SockFilter>)
    ensures
        res@ == spec_quic_reuseport_cbpf(workers),
{
    let bpf_ld: u16 = 0x00;
    let bpf_alu: u16 = 0x04;
    let bpf_jmp: u16 = 0x05;
    let bpf_ret: u16 = 0x06;
    let bpf_h: u16 = 0x08;
    let bpf_b: u16 = 0x10;
    let bpf_abs: u16 = 0x20;
    let bpf_k: u16 = 0x00;
    let bpf_a: u16 = 0x10;
    let bpf_ja: u16 = 0x00;
    let bpf_jset: u16 = 0x40;
    let bpf_mod: u16 = 0x90;
    let res = vec![
        sock_filter(bpf_ld | bpf_b | bpf_abs, 0, 0, 0),
        sock_filter(bpf_jmp | bpf_jset | bpf_k, 0, 2, 0x80),
        sock_filter(bpf_ld | bpf_h | bpf_abs, 0, 0, 6),
        sock_filter(bpf_jmp | bpf_ja, 0, 0, 1),
        sock_filter(bpf_ld | bpf_h | bpf_abs, 0, 0, 1),
        sock_filter(bpf_alu | bpf_mod | bpf_k, 0, 0, workers as u32),
        sock_filter(bpf_ret | bpf_a, 0, 0, 0),
    ];
    assert(res@ =~= spec_quic_reuseport_cbpf(workers));
    res
}


/// The eBPF reuse-port program: it reads the datagram's bounds from the
/// context, and for a long header (high bit of the first byte set) with a
/// destination connection id of at least two bytes returns the big-endian
/// half-word at offset 6 modulo the worker count; for a short header the
/// half-word at offset 1; when the datagram is too short, 0.
pub open spec fn spec_quic_reuseport_ebpf(workers: usize) -> Seq<BpfInsn> {
    seq![
        spec_bpf_insn(0x07u8 | 0xb0u8 | 0x08u8, 6, 1, 0, 0),
        spec_bpf_insn(0x01u8 | 0x18u8 | 0x60u8, 2, 6, 0, 0),
        spec_bpf_insn(0x01u8 | 0x18u8 | 0x60u8, 3, 6, 8, 0),
        spec_bpf_insn(0x07u8 | 0xb0u8 | 0x08u8, 4, 2, 0, 0),
        spec_bpf_insn(0x07u8 | 0x00u8 | 0x00u8, 4, 0, 0, 1),
        spec_bpf_insn(0x05u8 | 0x20u8 | 0x08u8, 4, 3, 26, 0),
        spec_bpf_insn(0x01u8 | 0x10u8 | 0x60u8, 0, 2, 0, 0),
        spec_bpf_insn(0x07u8 | 0x50u8 | 0x00u8, 0, 0, 0, 0x80),
        spec_bpf_insn(0x05u8 | 0x10u8 | 0x00u8, 0, 0, 14, 0),
        spec_bpf_insn(0x07u8 | 0xb0u8 | 0x08u8, 4, 2, 0, 0),
        spec_bpf_insn(0x07u8 | 0x00u8 | 0x00u8, 4, 0, 0, 6),
        spec_bpf_insn(0x05u8 | 0x20u8 | 0x08u8, 4, 3, 20, 0),
        spec_bpf_insn(0x01u8 | 0x10u8 | 0x60u8, 4, 2, 5, 0),
        spec_bpf_insn(0x05u8 | 0xa0u8 | 0x00u8, 4, 0, 18, 2),
        spec_bpf_insn(0x07u8 | 0xb0u8 | 0x08u8, 5, 2, 0, 0),
        spec_bpf_insn(0x07u8 | 0x00u8 | 0x00u8, 5, 0, 0, 8),
        spec_bpf_insn(0x05u8 | 0x20u8 | 0x08u8, 5, 3, 15, 0),
        spec_bpf_insn(0x01u8 | 0x10u8 | 0x60u8, 0, 2, 6, 0),
        spec_bpf_insn(0x07u8 | 0x60u8 | 0x00u8, 0, 0, 0, 8),
        spec_bpf_insn(0x01u8 | 0x10u8 | 0x60u8, 4, 2, 7, 0),
        spec_bpf_insn(0x07u8 | 0x40u8 | 0x08u8, 0, 4, 0, 0),
        spec_bpf_insn(0x07u8 | 0x90u8 | 0x00u8, 0, 0, 0, workers as i32),
        spec_bpf_insn(0x05u8 | 0x90u8, 0, 0, 0, 0),
        spec_bpf_insn(0x07u8 | 0xb0u8 | 0x08u8, 4, 2, 0, 0),
        spec_bpf_insn(0x07u8 | 0x00u8 | 0x00u8, 4, 0, 0, 3),
        spec_bpf_insn(0x05u8 | 0x20u8 | 0x08u8, 4, 3, 6, 0),
        spec_bpf_insn(0x01u8 | 0x10u8 | 0x60u8, 0, 2, 1, 0),
        spec_bpf_insn(0x07u8 | 0x60u8 | 0x00u8, 0, 0, 0, 8),
        spec_bpf_insn(0x01u8 | 0x10u8 | 0x60u8, 4, 2, 2, 0),
        spec_bpf_insn(0x07u8 | 0x40u8 | 0x08u8, 0, 4, 0, 0),
        spec_bpf_insn(0x07u8 | 0x90u8 | 0x00u8, 0, 0, 0, workers as i32),
        spec_bpf_insn(0x05u8 | 0x90u8, 0, 0, 0, 0),
        spec_bpf_insn(0x07u8 | 0xb0u8 | 0x00u8, 0, 0, 0, 0),
        spec_bpf_insn(0x05u8 | 0x90u8, 0, 0, 0, 0),
    ]
}

/// Builds the eBPF reuse-port program for `workers` workers.
pub fn quic_reuseport_ebpf(workers: usize) -> (res: Vec<BpfInsn>)
    ensures
        res@ == spec_quic_reuseport_ebpf(workers),
{
    let bpf_ldx: u8 = 0x01;
    let bpf_alu64: u8 = 0x07;
    let bpf_jmp: u8 = 0x05;
    let bpf_dw: u8 = 0x18;
    let bpf_b: u8 = 0x10;
    let bpf_mem: u8 = 0x60;
    let bpf_k: u8 = 0x00;
    let bpf_x: u8 = 0x08;
    let bpf_add: u8 = 0x00;
    let bpf_or: u8 = 0x40;
    let bpf_and: u8 = 0x50;
    let bpf_lsh: u8 = 0x60;
    let bpf_mod: u8 = 0x90;
    let bpf_mov: u8 = 0xb0;
    let bpf_jeq: u8 = 0x10;
    let bpf_jgt: u8 = 0x20;
    let bpf_jlt: u8 = 0xa0;
    let bpf_exit: u8 = 0x90;
    let res = vec![
        bpf_insn(bpf_alu64 | bpf_mov | bpf_x, 6, 1, 0, 0),
        bpf_insn(bpf_ldx | bpf_dw | bpf_mem, 2, 6, 0, 0),
        bpf_insn(bpf_ldx | bpf_dw | bpf_mem, 3, 6, 8, 0),
        bpf_insn(bpf_alu64 | bpf_mov | bpf_x, 4, 2, 0, 0),
        bpf_insn(bpf_alu64 | bpf_add | bpf_k, 4, 0, 0, 1),
        bpf_insn(bpf_jmp | bpf_jgt | bpf_x, 4, 3, 26, 0),
        bpf_insn(bpf_ldx | bpf_b | bpf_mem, 0, 2, 0, 0),
        bpf_insn(bpf_alu64 | bpf_and | bpf_k, 0, 0, 0, 0x80),
        bpf_insn(bpf_jmp | bpf_jeq | bpf_k, 0, 0, 14, 0),
        bpf_insn(bpf_alu64 | bpf_mov | bpf_x, 4, 2, 0, 0),
        bpf_insn(bpf_alu64 | bpf_add | bpf_k, 4, 0, 0, 6),
        bpf_insn(bpf_jmp | bpf_jgt | bpf_x, 4, 3, 20, 0),
        bpf_insn(bpf_ldx | bpf_b | bpf_mem, 4, 2, 5, 0),
        bpf_insn(bpf_jmp | bpf_jlt | bpf_k, 4, 0, 18, 2),
        bpf_insn(bpf_alu64 | bpf_mov | bpf_x, 5, 2, 0, 0),
        bpf_insn(bpf_alu64 | bpf_add | bpf_k, 5, 0, 0, 8),
        bpf_insn(bpf_jmp | bpf_jgt | bpf_x, 5, 3, 15, 0),
        bpf_insn(bpf_ldx | bpf_b | bpf_mem, 0, 2, 6, 0),
        bpf_insn(bpf_alu64 | bpf_lsh | bpf_k, 0, 0, 0, 8),
        bpf_insn(bpf_ldx | bpf_b | bpf_mem, 4, 2, 7, 0),
        bpf_insn(bpf_alu64 | bpf_or | bpf_x, 0, 4, 0, 0),
        bpf_insn(bpf_alu64 | bpf_mod | bpf_k, 0, 0, 0, workers as i32),
        bpf_insn(bpf_jmp | bpf_exit, 0, 0, 0, 0),
        bpf_insn(bpf_alu64 | bpf_mov | bpf_x, 4, 2, 0, 0),
        bpf_insn(bpf_alu64 | bpf_add | bpf_k, 4, 0, 0, 3),
        bpf_insn(bpf_jmp | bpf_jgt | bpf_x, 4, 3, 6, 0),
        bpf_insn(bpf_ldx | bpf_b | bpf_mem, 0, 2, 1, 0),
        bpf_insn(bpf_alu64 | bpf_lsh | bpf_k, 0, 0, 0, 8),
        bpf_insn(bpf_ldx | bpf_b | bpf_mem, 4, 2, 2, 0),
        bpf_insn(bpf_alu64 | bpf_or | bpf_x, 0, 4, 0, 0),
        bpf_insn(bpf_alu64 | bpf_mod | bpf_k, 0, 0, 0, workers as i32),
        bpf_insn(bpf_jmp | bpf_exit, 0, 0, 0, 0),
        bpf_insn(bpf_alu64 | bpf_mov | bpf_k, 0, 0, 0, 0),
        bpf_insn(bpf_jmp | bpf_exit, 0, 0, 0, 0),
    ];
    assert(res@ =~= spec_quic_reuseport_ebpf(workers));
    res
}


/// The value of the byte at offset `k`, if the packet has it.
pub open spec fn spec_load_byte(packet: Seq<u8>, k: u32) -> Option<u32> {
    if k < packet.len() {
        Some(packet[k as int] as u32)
    } else {
        None
    }
}

/// The big-endian half-word at offset `k`, if the packet has both bytes.
pub open spec fn spec_load_half(packet: Seq<u8>, k: u32) -> Option<u32> {
    if k + 1 < packet.len() {
        Some((packet[k as int] * 256 + packet[k + 1]) as u32)
    } else {
        None
    }
}

/// Runs a classic BPF program over `packet` from instruction `pc` with
/// accumulator `acc`, for at most `fuel` instructions. Covers the
/// instructions the reuse-port program uses: absolute byte and half-word
/// loads (a load past the end of the packet ends the program with 0), the
/// bit-test and unconditional jumps, the remainder by a constant and the
/// return of the accumulator. `None` when the program faults or runs out.
pub open spec fn spec_cbpf_run(program: Seq<SockFilter>, packet: Seq<u8>, pc: nat, acc: u32, fuel: nat) -> Option<u32>
    decreases fuel,
{
    if fuel == 0 || pc >= program.len() {
        None
    } else {
        let insn = program[pc as int];
        if insn.code == 0x30 {
            match spec_load_byte(packet, insn.k) {
                None => Some(0u32),
                Some(v) => spec_cbpf_run(program, packet, pc + 1, v, (fuel - 1) as nat),
            }
        } else if insn.code == 0x28 {
            match spec_load_half(packet, insn.k) {
                None => Some(0u32),
                Some(v) => spec_cbpf_run(program, packet, pc + 1, v, (fuel - 1) as nat),
            }
        } else if insn.code == 0x45 {
            if acc & insn.k != 0 {
                spec_cbpf_run(program, packet, (pc + 1 + insn.jt) as nat, acc, (fuel - 1) as nat)
            } else {
                spec_cbpf_run(program, packet, (pc + 1 + insn.jf) as nat, acc, (fuel - 1) as nat)
            }
        } else if insn.code == 0x05 {
            spec_cbpf_run(program, packet, (pc + 1 + insn.k) as nat, acc, (fuel - 1) as nat)
        } else if insn.code == 0x94 {
            if insn.k == 0 {
                None
            } else {
                spec_cbpf_run(program, packet, pc + 1, acc % insn.k, (fuel - 1) as nat)
            }
        } else if insn.code == 0x16 {
            Some(acc)
        } else {
            None
        }
    }
}

/// The kernel and the library agree on every datagram the library routes:
/// whenever the user-space routing finds a worker for a datagram, the
/// classic BPF program attached to the reuse-port group selects the same
/// socket index.
pub proof fn lemma_cbpf_agrees_with_user_space_routing(packet: Seq<u8>, workers: usize)
    requires
        0 < workers <= u32::MAX,
        spec_quic_worker_index(packet, workers as int) is Some,
    ensures
        spec_cbpf_run(spec_quic_reuseport_cbpf(workers), packet, 0, 0, 8) == Some(
            spec_quic_worker_index(packet, workers as int)->0 as u32,
        ),
{
    let prog = spec_quic_reuseport_cbpf(workers);
    let b0 = packet[0];
    let a0 = b0 as u32;
    assert((a0 & 0x80u32 != 0) == (b0 >= 0x80)) by (bit_vector)
        requires
            a0 == b0 as u32,
    ;
    assert(0x00u16 | 0x10u16 | 0x20u16 == 0x30u16) by (bit_vector);
    assert(0x05u16 | 0x40u16 | 0x00u16 == 0x45u16) by (bit_vector);
    assert(0x00u16 | 0x08u16 | 0x20u16 == 0x28u16) by (bit_vector);
    assert(0x05u16 | 0x00u16 == 0x05u16) by (bit_vector);
    assert(0x04u16 | 0x90u16 | 0x00u16 == 0x94u16) by (bit_vector);
    assert(0x06u16 | 0x10u16 == 0x16u16) by (bit_vector);
    reveal_with_fuel(spec_cbpf_run, 8);
}

/// The value of a sign-extended 32-bit immediate as a 64-bit register.
pub open spec fn spec_imm(imm: i32) -> int {
    if imm >= 0 {
        imm as int
    } else {
        imm + 0x1_0000_0000_0000_0000
    }
}

/// A 64-bit register value after wrapping `v`.
pub open spec fn spec_wrap(v: int) -> u64 {
    (v % 0x1_0000_0000_0000_0000) as u64
}

/// The destination register of an eBPF instruction.
pub open spec fn spec_dst(insn: BpfInsn) -> int {
    (insn.dst_src % 16) as int
}

/// The source register of an eBPF instruction.
pub open spec fn spec_src(insn: BpfInsn) -> int {
    (insn.dst_src / 16) as int
}

/// Whether an eBPF instruction leaves zero in the fields its opcode does not
/// use, as the kernel's verifier demands before it loads a program. The low
/// three bits of the opcode are its class and bit 3 says whether the source
/// operand is a register or the immediate. An arithmetic instruction uses no
/// offset, and no source register when its operand is the immediate, nor an
/// immediate when its operand is a register; a jump likewise uses the source
/// register or the immediate, not both; exit uses no field at all; a load
/// from memory uses no immediate.
pub open spec fn spec_reserved_fields_clear(insn: BpfInsn) -> bool {
    let class = insn.code % 8;
    let from_register = (insn.code / 8) % 2 == 1;
    if class == 4 || class == 7 {
        insn.off == 0 && if from_register {
            insn.imm == 0
        } else {
            spec_src(insn) == 0
        }
    } else if class == 5 || class == 6 {
        if insn.code == 0x95 {
            insn.dst_src == 0 && insn.off == 0 && insn.imm == 0
        } else if from_register {
            insn.imm == 0
        } else {
            spec_src(insn) == 0
        }
    } else if class == 1 {
        insn.imm == 0
    } else {
        true
    }
}

/// A double-word load from the reuse-port context at `ctx`: its first field
/// holds the address of the datagram's first byte and its second the address
/// just past the last one.
pub open spec fn spec_load_ctx(ctx: u64, data: u64, packet: Seq<u8>, addr: int) -> Option<u64> {
    if addr == ctx {
        Some(data)
    } else if addr == ctx + 8 {
        Some((data + packet.len()) as u64)
    } else {
        None
    }
}

/// A byte load from the datagram, which starts at address `data`.
pub open spec fn spec_load_packet(data: u64, packet: Seq<u8>, addr: int) -> Option<u64> {
    if data <= addr < data + packet.len() {
        Some(packet[addr - data] as u64)
    } else {
        None
    }
}

/// Runs an eBPF program from instruction `pc` with registers `regs`, for at
/// most `fuel` instructions, over a reuse-port context at `ctx` whose
/// datagram `packet` starts at address `data`. Covers the instructions the
/// reuse-port program uses: 64-bit moves, additions, bitwise and, or, left
/// shift and remainder; double-word loads from the context and byte loads
/// from the datagram; the greater-than, equal and less-than jumps; and exit,
/// which returns register 0. `None` when the program faults or runs out, or
/// meets an instruction that the kernel would refuse to load because a field
/// its opcode does not use is set.
pub open spec fn spec_ebpf_run(
    program: Seq<BpfInsn>,
    ctx: u64,
    data: u64,
    packet: Seq<u8>,
    pc: nat,
    regs: Seq<u64>,
    fuel: nat,
) -> Option<u64>
    decreases fuel,
{
    if fuel == 0 || pc >= program.len() {
        None
    } else {
        let insn = program[pc as int];
        let d = spec_dst(insn);
        let s = spec_src(insn);
        let next = pc + 1;
        let target = pc + 1 + insn.off;
        let k = spec_imm(insn.imm);
        let f = (fuel - 1) as nat;
        if d >= 11 || s >= 11 || target < 0 || !spec_reserved_fields_clear(insn) {
            None
        } else if insn.code == 0xbf {
            spec_ebpf_run(program, ctx, data, packet, next, regs.update(d, regs[s]), f)
        } else if insn.code == 0xb7 {
            spec_ebpf_run(program, ctx, data, packet, next, regs.update(d, k as u64), f)
        } else if insn.code == 0x07 {
            spec_ebpf_run(program, ctx, data, packet, next, regs.update(d, spec_wrap(regs[d] + k)), f)
        } else if insn.code == 0x57 {
            spec_ebpf_run(program, ctx, data, packet, next, regs.update(d, regs[d] & (k as u64)), f)
        } else if insn.code == 0x4f {
            spec_ebpf_run(program, ctx, data, packet, next, regs.update(d, regs[d] | regs[s]), f)
        } else if insn.code == 0x67 {
            if 0 <= insn.imm < 64 {
                spec_ebpf_run(program, ctx, data, packet, next, regs.update(d, regs[d] << (insn.imm as u64)), f)
            } else {
                None
            }
        } else if insn.code == 0x97 {
            if k == 0 {
                None
            } else {
                spec_ebpf_run(program, ctx, data, packet, next, regs.update(d, regs[d] % (k as u64)), f)
            }
        } else if insn.code == 0x79 {
            match spec_load_ctx(ctx, data, packet, regs[s] + insn.off) {
                None => None,
                Some(v) => spec_ebpf_run(program, ctx, data, packet, next, regs.update(d, v), f),
            }
        } else if insn.code == 0x71 {
            match spec_load_packet(data, packet, regs[s] + insn.off) {
                None => None,
                Some(v) => spec_ebpf_run(program, ctx, data, packet, next, regs.update(d, v), f),
            }
        } else if insn.code == 0x2d {
            if regs[d] > regs[s] {
                spec_ebpf_run(program, ctx, data, packet, target as nat, regs, f)
            } else {
                spec_ebpf_run(program, ctx, data, packet, next, regs, f)
            }
        } else if insn.code == 0x15 {
            if regs[d] == k {
                spec_ebpf_run(program, ctx, data, packet, target as nat, regs, f)
            } else {
                spec_ebpf_run(program, ctx, data, packet, next, regs, f)
            }
        } else if insn.code == 0xa5 {
            if regs[d] < k {
                spec_ebpf_run(program, ctx, data, packet, target as nat, regs, f)
            } else {
                spec_ebpf_run(program, ctx, data, packet, next, regs, f)
            }
        } else if insn.code == 0x95 {
            Some(regs[0])
        } else {
            None
        }
    }
}

proof fn lemma_register_fields()
    by (bit_vector)
    ensures
        forall|d: u8, s: u8|
            d < 16 && s < 16 ==> (#[trigger] (d | (s << 4u8))) % 16 == d && (d | (s << 4u8)) / 16
                == s,
{
}

proof fn lemma_ebpf_opcodes()
    by (bit_vector)
    ensures
        0x07u8 | 0xb0u8 | 0x08u8 == 0xbfu8,
        0x01u8 | 0x18u8 | 0x60u8 == 0x79u8,
        0x07u8 | 0x00u8 | 0x00u8 == 0x07u8,
        0x05u8 | 0x20u8 | 0x08u8 == 0x2du8,
        0x01u8 | 0x10u8 | 0x60u8 == 0x71u8,
        0x07u8 | 0x50u8 | 0x00u8 == 0x57u8,
        0x05u8 | 0x10u8 | 0x00u8 == 0x15u8,
        0x05u8 | 0xa0u8 | 0x00u8 == 0xa5u8,
        0x07u8 | 0x60u8 | 0x00u8 == 0x67u8,
        0x07u8 | 0x40u8 | 0x08u8 == 0x4fu8,
        0x07u8 | 0x90u8 | 0x00u8 == 0x97u8,
        0x05u8 | 0x90u8 == 0x95u8,
        0x07u8 | 0xb0u8 | 0x00u8 == 0xb7u8,
{
}

/// The registers after the reuse-port program has read the datagram's
/// bounds and masked the long-header bit of its first byte.
spec fn spec_header_regs(regs: Seq<u64>, ctx: u64, data: u64, packet: Seq<u8>) -> Seq<u64> {
    regs.update(6, ctx).update(2, data).update(3, (data + packet.len()) as u64).update(
        4,
        data,
    ).update(4, spec_wrap(data + 1)).update(0, packet[0] as u64).update(
        0,
        (packet[0] as u64) & 0x80u64,
    )
}

proof fn lemma_ebpf_reads_header(packet: Seq<u8>, workers: usize, ctx: u64, data: u64, regs: Seq<u64>)
    requires
        0 < workers <= 0x7fff_ffff,
        packet.len() >= 1,
        regs.len() == 11,
        regs[1] == ctx,
        data + packet.len() <= u64::MAX,
    ensures
        spec_ebpf_run(spec_quic_reuseport_ebpf(workers), ctx, data, packet, 0, regs, 40)
            == spec_ebpf_run(
            spec_quic_reuseport_ebpf(workers),
            ctx,
            data,
            packet,
            8,
            spec_header_regs(regs, ctx, data, packet),
            32,
        ),
{
    lemma_register_fields();
    lemma_ebpf_opcodes();
    vstd::arithmetic::div_mod::lemma_small_mod((data + 1) as nat, 0x1_0000_0000_0000_0000);
    let p = spec_quic_reuseport_ebpf(workers);
    let n = packet.len();
    let r1 = regs.update(6, ctx);
    let r2 = r1.update(2, data);
    let r3 = r2.update(3, (data + n) as u64);
    let r4 = r3.update(4, data);
    let r5 = r4.update(4, spec_wrap(data + 1));
    let r6 = r5.update(0, packet[0] as u64);
    let r7 = r6.update(0, (packet[0] as u64) & 0x80u64);
    assert(spec_ebpf_run(p, ctx, data, packet, 0, regs, 40) == spec_ebpf_run(p, ctx, data, packet, 1, r1, 39));
    assert(spec_ebpf_run(p, ctx, data, packet, 1, r1, 39) == spec_ebpf_run(p, ctx, data, packet, 2, r2, 38));
    assert(spec_ebpf_run(p, ctx, data, packet, 2, r2, 38) == spec_ebpf_run(p, ctx, data, packet, 3, r3, 37));
    assert(spec_ebpf_run(p, ctx, data, packet, 3, r3, 37) == spec_ebpf_run(p, ctx, data, packet, 4, r4, 36));
    assert(spec_ebpf_run(p, ctx, data, packet, 4, r4, 36) == spec_ebpf_run(p, ctx, data, packet, 5, r5, 35));
    assert(spec_ebpf_run(p, ctx, data, packet, 5, r5, 35) == spec_ebpf_run(p, ctx, data, packet, 6, r5, 34));
    assert(spec_ebpf_run(p, ctx, data, packet, 6, r5, 34) == spec_ebpf_run(p, ctx, data, packet, 7, r6, 33));
    assert(spec_ebpf_run(p, ctx, data, packet, 7, r6, 33) == spec_ebpf_run(p, ctx, data, packet, 8, r7, 32));
}

proof fn lemma_ebpf_long_header_bounds(
    packet: Seq<u8>,
    workers: usize,
    ctx: u64,
    data: u64,
    regs: Seq<u64>,
    fuel: nat,
)
    requires
        0 < workers <= 0x7fff_ffff,
        packet.len() >= 8,
        packet[5] >= 2,
        regs.len() == 11,
        regs[0] != 0,
        regs[2] == data,
        regs[3] == data + packet.len(),
        data + packet.len() <= u64::MAX,
        fuel >= 9,
    ensures
        spec_ebpf_run(spec_quic_reuseport_ebpf(workers), ctx, data, packet, 8, regs, fuel)
            == spec_ebpf_run(
            spec_quic_reuseport_ebpf(workers),
            ctx,
            data,
            packet,
            17,
            regs.update(4, data).update(4, spec_wrap(data + 6)).update(4, packet[5] as u64).update(
                5,
                data,
            ).update(5, spec_wrap(data + 8)),
            (fuel - 9) as nat,
        ),
{
    lemma_register_fields();
    lemma_ebpf_opcodes();
    vstd::arithmetic::div_mod::lemma_small_mod((data + 6) as nat, 0x1_0000_0000_0000_0000);
    vstd::arithmetic::div_mod::lemma_small_mod((data + 8) as nat, 0x1_0000_0000_0000_0000);
    let p = spec_quic_reuseport_ebpf(workers);
    let f = fuel;
    let r9 = regs.update(4, data);
    let r10 = r9.update(4, spec_wrap(data + 6));
    let r12 = r10.update(4, packet[5] as u64);
    let r14 = r12.update(5, data);
    let r15 = r14.update(5, spec_wrap(data + 8));
    assert(spec_ebpf_run(p, ctx, data, packet, 8, regs, f) == spec_ebpf_run(p, ctx, data, packet, 9, regs, (f - 1) as nat));
    assert(spec_ebpf_run(p, ctx, data, packet, 9, regs, (f - 1) as nat) == spec_ebpf_run(p, ctx, data, packet, 10, r9, (f - 2) as nat));
    assert(spec_ebpf_run(p, ctx, data, packet, 10, r9, (f - 2) as nat) == spec_ebpf_run(p, ctx, data, packet, 11, r10, (f - 3) as nat));
    assert(spec_ebpf_run(p, ctx, data, packet, 11, r10, (f - 3) as nat) == spec_ebpf_run(p, ctx, data, packet, 12, r10, (f - 4) as nat));
    assert(spec_ebpf_run(p, ctx, data, packet, 12, r10, (f - 4) as nat) == spec_ebpf_run(p, ctx, data, packet, 13, r12, (f - 5) as nat));
    assert(spec_ebpf_run(p, ctx, data, packet, 13, r12, (f - 5) as nat) == spec_ebpf_run(p, ctx, data, packet, 14, r12, (f - 6) as nat));
    assert(spec_ebpf_run(p, ctx, data, packet, 14, r12, (f - 6) as nat) == spec_ebpf_run(p, ctx, data, packet, 15, r14, (f - 7) as nat));
    assert(spec_ebpf_run(p, ctx, data, packet, 15, r14, (f - 7) as nat) == spec_ebpf_run(p, ctx, data, packet, 16, r15, (f - 8) as nat));
    assert(spec_ebpf_run(p, ctx, data, packet, 16, r15, (f - 8) as nat) == spec_ebpf_run(p, ctx, data, packet, 17, r15, (f - 9) as nat));
}

proof fn lemma_ebpf_long_header_result(
    packet: Seq<u8>,
    workers: usize,
    ctx: u64,
    data: u64,
    regs: Seq<u64>,
    fuel: nat,
)
    requires
        0 < workers <= 0x7fff_ffff,
        packet.len() >= 8,
        regs.len() == 11,
        regs[2] == data,
        data + packet.len() <= u64::MAX,
        fuel >= 6,
    ensures
        spec_ebpf_run(spec_quic_reuseport_ebpf(workers), ctx, data, packet, 17, regs, fuel) == Some(
            (((packet[6] as u64) << 8u64) | (packet[7] as u64)) % (workers as u64),
        ),
{
    lemma_register_fields();
    lemma_ebpf_opcodes();
    assert(spec_imm(workers as i32) == workers);
    let p = spec_quic_reuseport_ebpf(workers);
    let f = fuel;
    let r17 = regs.update(0, packet[6] as u64);
    let r18 = r17.update(0, (packet[6] as u64) << 8u64);
    let r19 = r18.update(4, packet[7] as u64);
    let r20 = r19.update(0, ((packet[6] as u64) << 8u64) | (packet[7] as u64));
    let r21 = r20.update(0, (((packet[6] as u64) << 8u64) | (packet[7] as u64)) % (workers as u64));
    assert(spec_ebpf_run(p, ctx, data, packet, 17, regs, f) == spec_ebpf_run(p, ctx, data, packet, 18, r17, (f - 1) as nat));
    assert(spec_ebpf_run(p, ctx, data, packet, 18, r17, (f - 1) as nat) == spec_ebpf_run(p, ctx, data, packet, 19, r18, (f - 2) as nat));
    assert(spec_ebpf_run(p, ctx, data, packet, 19, r18, (f - 2) as nat) == spec_ebpf_run(p, ctx, data, packet, 20, r19, (f - 3) as nat));
    assert(spec_ebpf_run(p, ctx, data, packet, 20, r19, (f - 3) as nat) == spec_ebpf_run(p, ctx, data, packet, 21, r20, (f - 4) as nat));
    assert(spec_ebpf_run(p, ctx, data, packet, 21, r20, (f - 4) as nat) == spec_ebpf_run(p, ctx, data, packet, 22, r21, (f - 5) as nat));
    assert(spec_ebpf_run(p, ctx, data, packet, 22, r21, (f - 5) as nat) == Some(r21[0]));
}

proof fn lemma_ebpf_short_header_bounds(
    packet: Seq<u8>,
    workers: usize,
    ctx: u64,
    data: u64,
    regs: Seq<u64>,
    fuel: nat,
)
    requires
        0 < workers <= 0x7fff_ffff,
        packet.len() >= 3,
        regs.len() == 11,
        regs[0] == 0,
        regs[2] == data,
        regs[3] == data + packet.len(),
        data + packet.len() <= u64::MAX,
        fuel >= 4,
    ensures
        spec_ebpf_run(spec_quic_reuseport_ebpf(workers), ctx, data, packet, 8, regs, fuel)
            == spec_ebpf_run(
            spec_quic_reuseport_ebpf(workers),
            ctx,
            data,
            packet,
            26,
            regs.update(4, data).update(4, spec_wrap(data + 3)),
            (fuel - 4) as nat,
        ),
{
    lemma_register_fields();
    lemma_ebpf_opcodes();
    vstd::arithmetic::div_mod::lemma_small_mod((data + 3) as nat, 0x1_0000_0000_0000_0000);
    let p = spec_quic_reuseport_ebpf(workers);
    let f = fuel;
    let r23 = regs.update(4, data);
    let r24 = r23.update(4, spec_wrap(data + 3));
    assert(spec_ebpf_run(p, ctx, data, packet, 8, regs, f) == spec_ebpf_run(p, ctx, data, packet, 23, regs, (f - 1) as nat));
    assert(spec_ebpf_run(p, ctx, data, packet, 23, regs, (f - 1) as nat) == spec_ebpf_run(p, ctx, data, packet, 24, r23, (f - 2) as nat));
    assert(spec_ebpf_run(p, ctx, data, packet, 24, r23, (f - 2) as nat) == spec_ebpf_run(p, ctx, data, packet, 25, r24, (f - 3) as nat));
    assert(spec_ebpf_run(p, ctx, data, packet, 25, r24, (f - 3) as nat) == spec_ebpf_run(p, ctx, data, packet, 26, r24, (f - 4) as nat));
}

proof fn lemma_ebpf_short_header_result(
    packet: Seq<u8>,
    workers: usize,
    ctx: u64,
    data: u64,
    regs: Seq<u64>,
    fuel: nat,
)
    requires
        0 < workers <= 0x7fff_ffff,
        packet.len() >= 3,
        regs.len() == 11,
        regs[2] == data,
        data + packet.len() <= u64::MAX,
        fuel >= 6,
    ensures
        spec_ebpf_run(spec_quic_reuseport_ebpf(workers), ctx, data, packet, 26, regs, fuel) == Some(
            (((packet[1] as u64) << 8u64) | (packet[2] as u64)) % (workers as u64),
        ),
{
    lemma_register_fields();
    lemma_ebpf_opcodes();
    assert(spec_imm(workers as i32) == workers);
    let p = spec_quic_reuseport_ebpf(workers);
    let f = fuel;
    let r26 = regs.update(0, packet[1] as u64);
    let r27 = r26.update(0, (packet[1] as u64) << 8u64);
    let r28 = r27.update(4, packet[2] as u64);
    let r29 = r28.update(0, ((packet[1] as u64) << 8u64) | (packet[2] as u64));
    let r30 = r29.update(0, (((packet[1] as u64) << 8u64) | (packet[2] as u64)) % (workers as u64));
    assert(spec_ebpf_run(p, ctx, data, packet, 26, regs, f) == spec_ebpf_run(p, ctx, data, packet, 27, r26, (f - 1) as nat));
    assert(spec_ebpf_run(p, ctx, data, packet, 27, r26, (f - 1) as nat) == spec_ebpf_run(p, ctx, data, packet, 28, r27, (f - 2) as nat));
    assert(spec_ebpf_run(p, ctx, data, packet, 28, r27, (f - 2) as nat) == spec_ebpf_run(p, ctx, data, packet, 29, r28, (f - 3) as nat));
    assert(spec_ebpf_run(p, ctx, data, packet, 29, r28, (f - 3) as nat) == spec_ebpf_run(p, ctx, data, packet, 30, r29, (f - 4) as nat));
    assert(spec_ebpf_run(p, ctx, data, packet, 30, r29, (f - 4) as nat) == spec_ebpf_run(p, ctx, data, packet, 31, r30, (f - 5) as nat));
    assert(spec_ebpf_run(p, ctx, data, packet, 31, r30, (f - 5) as nat) == Some(r30[0]));
}

/// The kernel and the library agree on every datagram the library routes:
/// whenever the user-space routing finds a worker for a datagram, the eBPF
/// program attached to the reuse-port group returns the same socket index.
/// The datagram occupies the addresses from `data` up to its end, all of them
/// below 2^64, and the worker count fits the instruction's signed immediate.
pub proof fn lemma_ebpf_agrees_with_user_space_routing(
    packet: Seq<u8>,
    workers: usize,
    ctx: u64,
    data: u64,
    regs: Seq<u64>,
)
    requires
        0 < workers <= 0x7fff_ffff,
        spec_quic_worker_index(packet, workers as int) is Some,
        regs.len() == 11,
        regs[1] == ctx,
        data + packet.len() <= u64::MAX,
    ensures
        spec_ebpf_run(spec_quic_reuseport_ebpf(workers), ctx, data, packet, 0, regs, 40) == Some(
            spec_quic_worker_index(packet, workers as int)->0 as u64,
        ),
{
    let n = packet.len();
    let p0 = packet[0] as u64;
    assert((p0 & 0x80u64 == 0u64) == (p0 < 0x80)) by (bit_vector)
        requires
            p0 < 256,
    ;
    lemma_ebpf_reads_header(packet, workers, ctx, data, regs);
    let header = spec_header_regs(regs, ctx, data, packet);
    assert(header[0] == p0 & 0x80u64 && header[2] == data && header[3] == data + n);
    if p0 >= 0x80 {
        let dcid = packet.subrange(6, 6 + packet[5]);
        assert(dcid.len() >= 2 && dcid[0] == packet[6] && dcid[1] == packet[7]);
        let h0 = packet[6] as u64;
        let h1 = packet[7] as u64;
        assert((h0 << 8u64) | h1 == h0 * 256 + h1) by (bit_vector)
            requires
                h0 < 256,
                h1 < 256,
        ;
        lemma_ebpf_long_header_bounds(packet, workers, ctx, data, header, 32);
        let bounds = header.update(4, data).update(4, spec_wrap(data + 6)).update(
            4,
            packet[5] as u64,
        ).update(5, data).update(5, spec_wrap(data + 8));
        lemma_ebpf_long_header_result(packet, workers, ctx, data, bounds, 23);
    } else {
        let h0 = packet[1] as u64;
        let h1 = packet[2] as u64;
        assert(packet.skip(1)[0] == packet[1] && packet.skip(1)[1] == packet[2]);
        assert((h0 << 8u64) | h1 == h0 * 256 + h1) by (bit_vector)
            requires
                h0 < 256,
                h1 < 256,
        ;
        lemma_ebpf_short_header_bounds(packet, workers, ctx, data, header, 32);
        let bounds = header.update(4, data).update(4, spec_wrap(data + 3));
        lemma_ebpf_short_header_result(packet, workers, ctx, data, bounds, 28);
    }
}

/// Every instruction of the eBPF program leaves the fields its opcode does
/// not use at zero, so the kernel's verifier accepts its encoding.
pub proof fn lemma_ebpf_reserved_fields_clear(workers: usize)
    ensures
        forall|i: int|
            0 <= i < spec_quic_reuseport_ebpf(workers).len() ==> spec_reserved_fields_clear(
                #[trigger] spec_quic_reuseport_ebpf(workers)[i],
            ),
{
    lemma_register_fields();
    lemma_ebpf_opcodes();
    let p = spec_quic_reuseport_ebpf(workers);
    assert forall|i: int| 0 <= i < p.len() implies spec_reserved_fields_clear(#[trigger] p[i]) by {
        assert(spec_reserved_fields_clear(p[i]));
    }
}

/// The eBPF programs for two worker counts have the same length and differ
/// only in the immediates of the two remainder instructions, which carry the
/// worker count.
pub proof fn lemma_ebpf_programs_differ_only_in_worker_count(a: usize, b: usize)
    ensures
        spec_quic_reuseport_ebpf(a).len() == 34,
        spec_quic_reuseport_ebpf(b).len() == 34,
        forall|i: int|
            0 <= i < 34 && i != 21 && i != 30 ==> #[trigger] spec_quic_reuseport_ebpf(a)[i]
                == spec_quic_reuseport_ebpf(b)[i],
        spec_quic_reuseport_ebpf(a)[21].imm == a as i32,
        spec_quic_reuseport_ebpf(a)[30].imm == a as i32,
        spec_quic_reuseport_ebpf(a)[21] == (BpfInsn { imm: a as i32, ..spec_quic_reuseport_ebpf(b)[21] }),
        spec_quic_reuseport_ebpf(a)[30] == (BpfInsn { imm: a as i32, ..spec_quic_reuseport_ebpf(b)[30] }),
{
    let pa = spec_quic_reuseport_ebpf(a);
    let pb = spec_quic_reuseport_ebpf(b);
    assert forall|i: int| 0 <= i < 34 && i != 21 && i != 30 implies #[trigger] pa[i] == pb[i] by {
        assert(pa[i] == pb[i]);
    }
}

/// The number of the `bpf` system call on `arch`, where it is known.
pub fn sys_bpf_number(arch: TargetArch) -> (res: Option<i64>)
    ensures
        res == match arch {
            TargetArch::X86_64 => Some(321i64),
            TargetArch::Aarch64 => Some(280i64),
            TargetArch::Riscv64 => Some(280i64),
            TargetArch::Arm => Some(386i64),
            TargetArch::Powerpc64 => Some(361i64),
            TargetArch::S390x => Some(351i64),
            TargetArch::Other => None,
        },
{
    match arch {
        TargetArch::X86_64 => Some(321),
        TargetArch::Aarch64 => Some(280),
        TargetArch::Riscv64 => Some(280),
        TargetArch::Arm => Some(386),
        TargetArch::Powerpc64 => Some(361),
        TargetArch::S390x => Some(351),
        TargetArch::Other => None,
    }
}

} // verus!
