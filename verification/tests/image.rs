use even_host::image::{compute_image_id, image_id_hex};

/// A minimal 32-bit RISC-V executable: one loadable segment of four bytes.
fn tiny_elf() -> Vec<u8> {
    let mut elf = vec![0x7f, b'E', b'L', b'F', 1, 1, 1, 0];
    elf.extend_from_slice(&[0u8; 8]);
    elf.extend_from_slice(&2u16.to_le_bytes()); // executable
    elf.extend_from_slice(&243u16.to_le_bytes()); // RISC-V
    elf.extend_from_slice(&1u32.to_le_bytes());
    elf.extend_from_slice(&0x0020_0800u32.to_le_bytes()); // entry
    elf.extend_from_slice(&52u32.to_le_bytes()); // program headers
    elf.extend_from_slice(&0u32.to_le_bytes()); // no section headers
    elf.extend_from_slice(&0u32.to_le_bytes());
    elf.extend_from_slice(&52u16.to_le_bytes());
    elf.extend_from_slice(&32u16.to_le_bytes());
    elf.extend_from_slice(&1u16.to_le_bytes());
    elf.extend_from_slice(&40u16.to_le_bytes());
    elf.extend_from_slice(&0u16.to_le_bytes());
    elf.extend_from_slice(&0u16.to_le_bytes());
    assert_eq!(elf.len(), 52);
    elf.extend_from_slice(&1u32.to_le_bytes()); // loadable
    elf.extend_from_slice(&84u32.to_le_bytes()); // offset
    elf.extend_from_slice(&0x0020_0800u32.to_le_bytes()); // vaddr
    elf.extend_from_slice(&0x0020_0800u32.to_le_bytes()); // paddr
    elf.extend_from_slice(&4u32.to_le_bytes()); // filesz
    elf.extend_from_slice(&4u32.to_le_bytes()); // memsz
    elf.extend_from_slice(&5u32.to_le_bytes()); // flags
    elf.extend_from_slice(&4u32.to_le_bytes()); // align
    assert_eq!(elf.len(), 84);
    elf.extend_from_slice(&[0x73, 0x00, 0x00, 0x00]);
    elf
}

#[test]
fn hex_is_lower_case_two_digits_a_byte() {
    assert_eq!(image_id_hex(&[0x0403_0201, 0x100f_0e0d]), "010203040d0e0f10");
    assert_eq!(image_id_hex(&[0xffee_cdab]), "abcdeeff");
    assert_eq!(image_id_hex(&[0]), "00000000");
    assert_eq!(image_id_hex(&[]), "");
}

#[test]
fn garbage_is_no_program() {
    assert_eq!(compute_image_id(&[]), None);
    assert_eq!(compute_image_id(b"not an elf at all"), None);
}

#[test]
fn image_id_of_a_tiny_program() {
    let elf = tiny_elf();
    let name = compute_image_id(&elf).unwrap();
    assert_eq!(name.len(), 64);
    assert!(name.chars().all(|c| c.is_ascii_digit() || ('a'..='f').contains(&c)));
    let program =
        risc0_zkvm::Program::load_elf(&elf, risc0_zkvm::GUEST_MAX_MEM as u32).unwrap();
    let image = risc0_zkvm::MemoryImage::new(&program, risc0_zkvm::PAGE_SIZE as u32).unwrap();
    assert_eq!(name, hex::encode(image.compute_id()));
    assert_eq!(compute_image_id(&elf), Some(name));
}
