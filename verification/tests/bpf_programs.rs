use sfo_reuseport::bpf::{
    bpf_insn, quic_reuseport_cbpf, quic_reuseport_ebpf, sock_filter, sys_bpf_number, TargetArch,
};

#[test]
fn quic_reuseport_cbpf_reads_long_and_short_header_shards() {
    let filter = quic_reuseport_cbpf(4);

    assert_eq!(filter[0], sock_filter(0x00 | 0x10 | 0x20, 0, 0, 0));
    assert_eq!(filter[1], sock_filter(0x05 | 0x40 | 0x00, 0, 2, 0x80));
    assert_eq!(filter[2], sock_filter(0x00 | 0x08 | 0x20, 0, 0, 6));
    assert_eq!(filter[4], sock_filter(0x00 | 0x08 | 0x20, 0, 0, 1));
    assert_eq!(filter[5], sock_filter(0x04 | 0x90 | 0x00, 0, 0, 4));
    assert_eq!(filter[6], sock_filter(0x06 | 0x10, 0, 0, 0));
}

#[test]
fn quic_reuseport_ebpf_reads_long_and_short_header_shards() {
    let program = quic_reuseport_ebpf(4);

    assert_eq!(program[0], bpf_insn(0x07 | 0xb0 | 0x08, 6, 1, 0, 0));
    assert_eq!(program[8], bpf_insn(0x05 | 0x10 | 0x00, 0, 0, 14, 0));
    assert_eq!(program[17], bpf_insn(0x01 | 0x10 | 0x60, 0, 2, 6, 0));
    assert_eq!(program[21], bpf_insn(0x07 | 0x90 | 0x00, 0, 0, 0, 4));
    assert_eq!(program[26], bpf_insn(0x01 | 0x10 | 0x60, 0, 2, 1, 0));
    assert_eq!(program[30], bpf_insn(0x07 | 0x90 | 0x00, 0, 0, 0, 4));
    assert_eq!(program[33], bpf_insn(0x05 | 0x90, 0, 0, 0, 0));
}

#[test]
fn bpf_programs_have_fixed_length_and_carry_worker_count() {
    let program = quic_reuseport_ebpf(7);
    assert_eq!(program.len(), 34);
    assert_eq!(program[21].imm, 7);
    let filter = quic_reuseport_cbpf(7);
    assert_eq!(filter.len(), 7);
    assert_eq!(filter[5].k, 7);
}

#[test]
fn bpf_insn_packs_registers_into_one_byte() {
    let insn = bpf_insn(0xb7, 3, 5, -2, 42);
    assert_eq!(insn.dst_src, 0x53);
    assert_eq!(insn.off, -2);
    assert_eq!(insn.imm, 42);
}

#[test]
fn bpf_syscall_numbers_follow_architecture() {
    assert_eq!(sys_bpf_number(TargetArch::X86_64), Some(321));
    assert_eq!(sys_bpf_number(TargetArch::Aarch64), Some(280));
    assert_eq!(sys_bpf_number(TargetArch::Riscv64), Some(280));
    assert_eq!(sys_bpf_number(TargetArch::Arm), Some(386));
    assert_eq!(sys_bpf_number(TargetArch::Powerpc64), Some(361));
    assert_eq!(sys_bpf_number(TargetArch::S390x), Some(351));
    assert_eq!(sys_bpf_number(TargetArch::Other), None);
}

fn run_cbpf(program: &[sfo_reuseport::bpf::SockFilter], packet: &[u8]) -> Option<u32> {
    let mut pc = 0usize;
    let mut acc = 0u32;
    for _ in 0..16 {
        let insn = program.get(pc)?;
        let k = insn.k as usize;
        match insn.code {
            0x30 => match packet.get(k) {
                Some(b) => {
                    acc = *b as u32;
                    pc += 1;
                }
                None => return Some(0),
            },
            0x28 => {
                if k + 1 >= packet.len() {
                    return Some(0);
                }
                acc = (packet[k] as u32) << 8 | packet[k + 1] as u32;
                pc += 1;
            }
            0x45 => {
                let skip = if acc & insn.k != 0 { insn.jt } else { insn.jf };
                pc += 1 + skip as usize;
            }
            0x05 => pc += 1 + k,
            0x94 => {
                acc %= insn.k;
                pc += 1;
            }
            0x16 => return Some(acc),
            _ => return None,
        }
    }
    None
}

fn run_ebpf(program: &[sfo_reuseport::bpf::BpfInsn], packet: &[u8]) -> Option<u64> {
    let ctx: u64 = 0x1000;
    let data: u64 = 0x2000;
    let end = data + packet.len() as u64;
    let mut regs = [0u64; 11];
    regs[1] = ctx;
    let mut pc = 0usize;
    for _ in 0..64 {
        let insn = program.get(pc)?;
        let d = (insn.dst_src & 0x0f) as usize;
        let s = (insn.dst_src >> 4) as usize;
        let k = insn.imm as i64 as u64;
        let target = (pc as i64 + 1 + insn.off as i64) as usize;
        let addr = regs[s].wrapping_add(insn.off as i64 as u64);
        match insn.code {
            0xbf => regs[d] = regs[s],
            0xb7 => regs[d] = k,
            0x07 => regs[d] = regs[d].wrapping_add(k),
            0x57 => regs[d] &= k,
            0x4f => regs[d] |= regs[s],
            0x67 => regs[d] <<= insn.imm as u64,
            0x97 => regs[d] %= k,
            0x79 => {
                regs[d] = if addr == ctx {
                    data
                } else if addr == ctx + 8 {
                    end
                } else {
                    return None;
                }
            }
            0x71 => {
                if addr < data || addr >= end {
                    return None;
                }
                regs[d] = packet[(addr - data) as usize] as u64;
            }
            0x2d | 0x15 | 0xa5 => {
                let taken = match insn.code {
                    0x2d => regs[d] > regs[s],
                    0x15 => regs[d] == k,
                    _ => regs[d] < k,
                };
                if taken {
                    pc = target;
                    continue;
                }
            }
            0x95 => return Some(regs[0]),
            _ => return None,
        }
        pc += 1;
    }
    None
}

fn routed_samples() -> Vec<Vec<u8>> {
    vec![
        vec![0x40, 0x00, 0x07, 1, 2, 3],
        vec![0x41, 0x01, 0x03, 9],
        vec![0xc0, 0, 0, 0, 1, 8, 0x00, 0x05, 1, 2, 3, 4, 5, 6],
        vec![0xc3, 0xff, 0, 0, 1, 2, 0x12, 0x34],
        vec![0x80, 0, 0, 0, 1, 4, 0xab, 0xcd, 0, 0, 7],
    ]
}

#[test]
fn classic_program_selects_the_worker_that_user_space_routing_picks() {
    for workers in [1usize, 3, 4, 7] {
        let program = quic_reuseport_cbpf(workers);
        for packet in routed_samples() {
            let expected = sfo_reuseport::quic::quic_worker_index(&packet, workers).unwrap();
            assert_eq!(run_cbpf(&program, &packet), Some(expected as u32));
        }
    }
}

#[test]
fn extended_program_selects_the_worker_that_user_space_routing_picks() {
    for workers in [1usize, 3, 4, 7] {
        let program = quic_reuseport_ebpf(workers);
        for packet in routed_samples() {
            let expected = sfo_reuseport::quic::quic_worker_index(&packet, workers).unwrap();
            assert_eq!(run_ebpf(&program, &packet), Some(expected as u64));
        }
    }
}

#[test]
fn extended_program_answers_zero_for_datagrams_without_a_route_key() {
    let program = quic_reuseport_ebpf(4);
    assert_eq!(run_ebpf(&program, &[]), Some(0));
    assert_eq!(run_ebpf(&program, &[0x40, 0x01]), Some(0));
    assert_eq!(run_ebpf(&program, &[0xc0, 0, 0, 0, 1, 1, 0x09, 0x09]), Some(0));
}
