use dice_game::pubkey::Pubkey;
use dice_game::vault::find_vault_address;

fn sample_program_id() -> [u8; 32] {
    let mut bytes = [0u8; 32];
    let mut i = 0usize;
    while i < 32 {
        bytes[i] = (i as u8) * 3 + 1;
        i += 1;
    }
    bytes
}

#[test]
fn repeated_derivation_is_deterministic() {
    let pid = Pubkey::new(sample_program_id());
    let (addr1, bump1) = find_vault_address(&pid).unwrap();
    let (addr2, bump2) = find_vault_address(&pid).unwrap();
    assert_eq!(addr1.bytes, addr2.bytes);
    assert_eq!(bump1, bump2);
}

#[test]
fn derivation_matches_host_derivation() {
    let pid_bytes = sample_program_id();
    let pid = Pubkey::new(pid_bytes);
    let (addr, bump) = find_vault_address(&pid).unwrap();

    let host_pid = anchor_lang::prelude::Pubkey::new_from_array(pid_bytes);
    let (host_addr, host_bump) =
        anchor_lang::prelude::Pubkey::find_program_address(&[b"vault"], &host_pid);
    assert_eq!(addr.bytes, host_addr.to_bytes());
    assert_eq!(bump, host_bump);
}

#[test]
fn derived_address_is_off_curve() {
    let pid = Pubkey::new(sample_program_id());
    let (addr, _bump) = find_vault_address(&pid).unwrap();
    let host_addr = anchor_lang::prelude::Pubkey::new_from_array(addr.bytes);
    assert!(!host_addr.is_on_curve());
}

#[test]
fn derived_address_differs_from_inputs() {
    let pid_bytes = sample_program_id();
    let pid = Pubkey::new(pid_bytes);
    let (addr, _bump) = find_vault_address(&pid).unwrap();
    assert_ne!(addr.bytes, pid_bytes);
}

#[test]
fn generic_seed_derivation_matches_host() {
    let pid_bytes = sample_program_id();
    let pid = Pubkey::new(pid_bytes);
    let seed = b"escrow";
    let (addr, bump) = dice_game::derivation::find_program_address(seed, &pid).unwrap();

    let host_pid = anchor_lang::prelude::Pubkey::new_from_array(pid_bytes);
    let (host_addr, host_bump) =
        anchor_lang::prelude::Pubkey::find_program_address(&[seed], &host_pid);
    assert_eq!(addr.bytes, host_addr.to_bytes());
    assert_eq!(bump, host_bump);
}

#[test]
fn distinct_programs_get_distinct_vaults() {
    let pid1 = Pubkey::new(sample_program_id());
    let mut other = sample_program_id();
    other[0] ^= 0xff;
    let pid2 = Pubkey::new(other);
    let (addr1, _) = find_vault_address(&pid1).unwrap();
    let (addr2, _) = find_vault_address(&pid2).unwrap();
    assert_ne!(addr1.bytes, addr2.bytes);
}
