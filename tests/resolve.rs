use syscall_resolve::export::{get_function_addr, Arch};
use syscall_resolve::hash::{dbj2_hash, HASH_SEED};
use syscall_resolve::image::{get_cstr_len, read_u16, read_u32, LoadedModule};
use syscall_resolve::modules::find_module;
use syscall_resolve::stub::{get_ssn, read_stub, Syscall, Variant, STUB_LIBRARY_HASH};
use syscall_resolve::ResolveError;

const IMAGE_SIZE: usize = 0x400;
const NT_HEADERS: usize = 0x80;
const EXPORT_DIR: usize = 0x200;
const EXPORT_DIR_SIZE: u32 = 0x100;
const FUNCTIONS: usize = 0x240;
const NAMES: usize = 0x260;
const ORDINALS: usize = 0x280;
const STRINGS: usize = 0x2A0;
const CODE: usize = 0x300;

const STUB_64_CLOSE: [u8; 24] = [
    0x4C, 0x8B, 0xD1, 0xB8, 0x0F, 0x00, 0x00, 0x00, 0xF6, 0x04, 0x25, 0x08, 0x03, 0xFE, 0x7F,
    0x01, 0x75, 0x03, 0x0F, 0x05, 0xC3, 0xCD, 0x2E, 0xC3,
];
const STUB_64_OPEN: [u8; 24] = [
    0x4C, 0x8B, 0xD1, 0xB8, 0x26, 0x00, 0x00, 0x00, 0xF6, 0x04, 0x25, 0x08, 0x03, 0xFE, 0x7F,
    0x01, 0x75, 0x03, 0x0F, 0x05, 0xC3, 0xCD, 0x2E, 0xC3,
];

fn put_u16(img: &mut [u8], off: usize, v: u16) {
    img[off..off + 2].copy_from_slice(&v.to_le_bytes());
}

fn put_u32(img: &mut [u8], off: usize, v: u32) {
    img[off..off + 4].copy_from_slice(&v.to_le_bytes());
}

/// An image exporting `names`, the i-th name bound through the ordinal table to
/// the function slot `ords[i]`; function slot j holds `CODE + 0x40 * j`.
fn build_image(arch: Arch, names: &[&str], ords: &[u16], stubs: &[&[u8]]) -> Vec<u8> {
    let mut img = vec![0u8; IMAGE_SIZE];
    img[0] = b'M';
    img[1] = b'Z';
    put_u32(&mut img, 0x3C, NT_HEADERS as u32);
    let entry = NT_HEADERS + if arch == Arch::X64 { 0x88 } else { 0x78 };
    put_u32(&mut img, entry, EXPORT_DIR as u32);
    put_u32(&mut img, entry + 4, EXPORT_DIR_SIZE);
    put_u32(&mut img, EXPORT_DIR + 0x18, names.len() as u32);
    put_u32(&mut img, EXPORT_DIR + 0x1C, FUNCTIONS as u32);
    put_u32(&mut img, EXPORT_DIR + 0x20, NAMES as u32);
    put_u32(&mut img, EXPORT_DIR + 0x24, ORDINALS as u32);
    let mut at = STRINGS;
    for (i, name) in names.iter().enumerate() {
        put_u32(&mut img, NAMES + 4 * i, at as u32);
        img[at..at + name.len()].copy_from_slice(name.as_bytes());
        at += name.len() + 1;
        put_u16(&mut img, ORDINALS + 2 * i, ords[i]);
    }
    for (j, stub) in stubs.iter().enumerate() {
        let code = CODE + 0x40 * j;
        put_u32(&mut img, FUNCTIONS + 4 * j, code as u32);
        img[code..code + stub.len()].copy_from_slice(stub);
    }
    img
}

fn ntdll_image() -> Vec<u8> {
    build_image(
        Arch::X64,
        &["NtClose", "NtOpenProcess"],
        &[1, 0],
        &[&STUB_64_OPEN, &STUB_64_CLOSE],
    )
}

fn utf16(s: &str) -> Vec<u8> {
    s.encode_utf16().flat_map(|c| c.to_le_bytes()).collect()
}

const BASE: u64 = 0x7FFE_0000_0000;

#[test]
fn hash_of_empty_is_seed() {
    assert_eq!(dbj2_hash(&[]), HASH_SEED);
    assert_eq!(dbj2_hash(&[0, 0]), HASH_SEED);
}

#[test]
fn hash_exact_values() {
    assert_eq!(dbj2_hash(b"A"), 5381 * 33 + 0x41);
    assert_eq!(dbj2_hash(b"NtClose"), 0x40D6_E69D);
    assert_eq!(dbj2_hash(b"NtOpenProcess"), 0x4B82_F718);
}

#[test]
fn hash_of_stub_library_name() {
    assert_eq!(dbj2_hash(b"ntdll.dll"), STUB_LIBRARY_HASH);
    assert_eq!(dbj2_hash(&utf16("ntdll.dll")), STUB_LIBRARY_HASH);
}

#[test]
fn hash_folds_lower_case() {
    assert_eq!(dbj2_hash(b"NTDLL.DLL"), dbj2_hash(b"ntdll.dll"));
    assert_ne!(dbj2_hash(b"NtClose"), dbj2_hash(b"NtClos"));
}

#[test]
fn hash_is_deterministic() {
    let names = ["NtClose", "NtOpenProcess", "NtAllocateVirtualMemory", "ntdll.dll"];
    for n in names {
        assert_eq!(dbj2_hash(n.as_bytes()), dbj2_hash(n.as_bytes()));
    }
    for (i, a) in names.iter().enumerate() {
        for b in &names[i + 1..] {
            assert_ne!(dbj2_hash(a.as_bytes()), dbj2_hash(b.as_bytes()));
        }
    }
}

#[test]
fn reads_little_endian_values() {
    let s = [0x34u8, 0x12, 0x78, 0x56];
    assert_eq!(read_u16(&s, 0), Some(0x1234));
    assert_eq!(read_u16(&s, 2), Some(0x5678));
    assert_eq!(read_u16(&s, 3), None);
    assert_eq!(read_u32(&s, 0), Some(0x5678_1234));
    assert_eq!(read_u32(&s, 1), None);
    assert_eq!(read_u32(&s, u64::MAX), None);
}

#[test]
fn measures_terminated_strings() {
    let s = b"abc\0d";
    assert_eq!(get_cstr_len(s, 0), Some(3));
    assert_eq!(get_cstr_len(s, 3), Some(0));
    assert_eq!(get_cstr_len(s, 4), None);
    assert_eq!(get_cstr_len(s, 9), None);
}

#[test]
fn find_module_returns_first_match() {
    let a = utf16("kernel32.dll");
    let b = utf16("ntdll.dll");
    let c = utf16("NTDLL.DLL");
    let mods = [
        LoadedModule { base: 0x1000, name: &a, image: &[] },
        LoadedModule { base: 0x2000, name: &b, image: &[] },
        LoadedModule { base: 0x3000, name: &c, image: &[] },
    ];
    assert_eq!(find_module(&mods, STUB_LIBRARY_HASH), Some(1));
    assert_eq!(mods[1].base, 0x2000);
    assert_eq!(find_module(&mods, dbj2_hash(b"kernel32.dll")), Some(0));
}

#[test]
fn find_module_absent() {
    let a = utf16("kernel32.dll");
    let mods = [LoadedModule { base: 0x1000, name: &a, image: &[] }];
    assert_eq!(find_module(&mods, STUB_LIBRARY_HASH), None);
    assert_eq!(find_module(&[], STUB_LIBRARY_HASH), None);
}

#[test]
fn export_resolves_through_ordinals() {
    let img = ntdll_image();
    let name = utf16("ntdll.dll");
    let m = LoadedModule { base: BASE, name: &name, image: &img };
    let close = get_function_addr(&m, Arch::X64, dbj2_hash(b"NtClose"));
    assert_eq!(close, Ok(BASE + CODE as u64 + 0x40));
    let open = get_function_addr(&m, Arch::X64, dbj2_hash(b"NtOpenProcess"));
    assert_eq!(open, Ok(BASE + CODE as u64));
    let a = close.unwrap();
    assert!(a >= BASE && a < BASE + img.len() as u64);
}

#[test]
fn export_absent() {
    let img = ntdll_image();
    let m = LoadedModule { base: BASE, name: &[], image: &img };
    let r = get_function_addr(&m, Arch::X64, dbj2_hash(b"NtCreateThreadEx"));
    assert_eq!(r, Err(ResolveError::ExportNotFound));
}

#[test]
fn export_of_module_without_exports() {
    let mut img = ntdll_image();
    put_u32(&mut img, NT_HEADERS + 0x88, 0);
    let m = LoadedModule { base: BASE, name: &[], image: &img };
    let r = get_function_addr(&m, Arch::X64, dbj2_hash(b"NtClose"));
    assert_eq!(r, Err(ResolveError::ExportNotFound));
}

#[test]
fn export_with_zero_names() {
    let img = build_image(Arch::X64, &[], &[], &[]);
    let m = LoadedModule { base: BASE, name: &[], image: &img };
    let r = get_function_addr(&m, Arch::X64, dbj2_hash(b"NtClose"));
    assert_eq!(r, Err(ResolveError::ExportNotFound));
}

#[test]
fn export_of_pe32_image() {
    let img = build_image(Arch::X86, &["NtClose"], &[0], &[&STUB_64_CLOSE]);
    let m = LoadedModule { base: 0x7700_0000, name: &[], image: &img };
    let r = get_function_addr(&m, Arch::X86, dbj2_hash(b"NtClose"));
    assert_eq!(r, Ok(0x7700_0000 + CODE as u64));
    let wrong = get_function_addr(&m, Arch::X64, dbj2_hash(b"NtClose"));
    assert_eq!(wrong, Err(ResolveError::ExportNotFound));
}

#[test]
fn export_of_truncated_image() {
    let img = ntdll_image();
    let m = LoadedModule { base: BASE, name: &[], image: &img[..0x100] };
    let r = get_function_addr(&m, Arch::X64, dbj2_hash(b"NtClose"));
    assert_eq!(r, Err(ResolveError::MalformedImage));
    let tiny = LoadedModule { base: BASE, name: &[], image: &img[..0x10] };
    assert_eq!(get_function_addr(&tiny, Arch::X64, 0), Err(ResolveError::MalformedImage));
}

#[test]
fn export_with_unterminated_name() {
    let mut img = ntdll_image();
    put_u32(&mut img, NAMES, (IMAGE_SIZE - 2) as u32);
    img[IMAGE_SIZE - 2] = b'x';
    img[IMAGE_SIZE - 1] = b'y';
    let m = LoadedModule { base: BASE, name: &[], image: &img };
    let r = get_function_addr(&m, Arch::X64, dbj2_hash(b"NtOpenProcess"));
    assert_eq!(r, Err(ResolveError::MalformedImage));
}

#[test]
fn export_forwarded_is_not_found() {
    let mut img = ntdll_image();
    put_u32(&mut img, FUNCTIONS + 4, (EXPORT_DIR + 0x90) as u32);
    let m = LoadedModule { base: BASE, name: &[], image: &img };
    let r = get_function_addr(&m, Arch::X64, dbj2_hash(b"NtClose"));
    assert_eq!(r, Err(ResolveError::ExportNotFound));
}

#[test]
fn export_pointing_outside_image() {
    let mut img = ntdll_image();
    put_u32(&mut img, FUNCTIONS + 4, 0x10_0000);
    let m = LoadedModule { base: BASE, name: &[], image: &img };
    let r = get_function_addr(&m, Arch::X64, dbj2_hash(b"NtClose"));
    assert_eq!(r, Err(ResolveError::MalformedImage));
}

fn snapshot<'a>(img: &'a [u8], name: &'a [u8], other: &'a [u8]) -> Vec<LoadedModule<'a>> {
    vec![
        LoadedModule { base: 0x1_4000_0000, name: other, image: &[] },
        LoadedModule { base: BASE, name, image: img },
    ]
}

#[test]
fn direct_64_service_number() {
    let img = ntdll_image();
    let (name, other) = (utf16("ntdll.dll"), utf16("app.exe"));
    let mods = snapshot(&img, &name, &other);
    let r = get_ssn(&mods, Variant::Direct64, dbj2_hash(b"NtClose"), false);
    assert_eq!(
        r,
        Ok(Syscall { address: BASE + CODE as u64 + 0x40, number: 0x0F, gadget: None })
    );
    let r = get_ssn(&mods, Variant::Direct64, dbj2_hash(b"NtOpenProcess"), false);
    assert_eq!(r.map(|s| s.number), Ok(0x26));
}

#[test]
fn indirect_64_gadget() {
    let img = ntdll_image();
    let (name, other) = (utf16("ntdll.dll"), utf16("app.exe"));
    let mods = snapshot(&img, &name, &other);
    let sc = get_ssn(&mods, Variant::Indirect64, dbj2_hash(b"NtClose"), false).unwrap();
    assert_eq!(sc.number, 0x0F);
    assert_eq!(sc.gadget, Some(sc.address + 0x12));
    let g = sc.gadget.unwrap();
    assert!(g > sc.address && g < BASE + img.len() as u64);
    let off = (g - BASE) as usize;
    assert_eq!(&img[off..off + 2], &[0x0F, 0x05]);
}

#[test]
fn service_number_is_stable() {
    let img = ntdll_image();
    let (name, other) = (utf16("ntdll.dll"), utf16("app.exe"));
    let mods = snapshot(&img, &name, &other);
    let h = dbj2_hash(b"NtOpenProcess");
    let first = get_ssn(&mods, Variant::Indirect64, h, false);
    for _ in 0..3 {
        assert_eq!(get_ssn(&mods, Variant::Indirect64, h, false), first);
    }
}

#[test]
fn indirect_32_gadget_depends_on_wow64() {
    let stub32: [u8; 20] = [
        0xB8, 0x0F, 0x00, 0x00, 0x00, 0xBA, 0x00, 0x00, 0x00, 0x00, 0xFF, 0xD2, 0xC2, 0x04,
        0x00, 0x8B, 0xD4, 0x0F, 0x34, 0xC3,
    ];
    let img = build_image(Arch::X86, &["NtClose"], &[0], &[&stub32]);
    let (name, other) = (utf16("ntdll.dll"), utf16("app.exe"));
    let mods = snapshot(&img, &name, &other);
    let h = dbj2_hash(b"NtClose");
    let address = BASE + CODE as u64;
    let direct = get_ssn(&mods, Variant::Direct32, h, false);
    assert_eq!(direct, Ok(Syscall { address, number: 0x0F, gadget: None }));
    let wow = get_ssn(&mods, Variant::Indirect32, h, true);
    assert_eq!(wow, Ok(Syscall { address, number: 0x0F, gadget: Some(address + 0x0A) }));
    let native = get_ssn(&mods, Variant::Indirect32, h, false);
    assert_eq!(native, Ok(Syscall { address, number: 0x0F, gadget: Some(address + 0x0F) }));
}

#[test]
fn unknown_export_in_every_variant() {
    let img64 = ntdll_image();
    let img32 = build_image(Arch::X86, &["NtClose"], &[0], &[&STUB_64_CLOSE]);
    let (name, other) = (utf16("ntdll.dll"), utf16("app.exe"));
    let h = dbj2_hash(b"NtDoesNotExist");
    for (v, img) in [
        (Variant::Direct64, &img64),
        (Variant::Indirect64, &img64),
        (Variant::Direct32, &img32),
        (Variant::Indirect32, &img32),
    ] {
        let mods = snapshot(img, &name, &other);
        assert_eq!(get_ssn(&mods, v, h, true), Err(ResolveError::ExportNotFound));
        assert_eq!(get_ssn(&mods, v, h, false), Err(ResolveError::ExportNotFound));
    }
}

#[test]
fn stub_library_missing() {
    let img = ntdll_image();
    let (name, other) = (utf16("kernelbase.dll"), utf16("app.exe"));
    let mods = snapshot(&img, &name, &other);
    let r = get_ssn(&mods, Variant::Direct64, dbj2_hash(b"NtClose"), false);
    assert_eq!(r, Err(ResolveError::ModuleNotFound));
}

#[test]
fn read_stub_near_end_of_image() {
    let img = vec![0u8; 0x20];
    let m = LoadedModule { base: 0x1000, name: &[], image: &img };
    let direct = read_stub(&m, Variant::Direct64, 0x1000 + 0x10, false);
    assert_eq!(direct, Ok(Syscall { address: 0x1010, number: 0, gadget: None }));
    let indirect = read_stub(&m, Variant::Indirect64, 0x1000 + 0x10, false);
    assert_eq!(indirect, Err(ResolveError::MalformedImage));
    let below = read_stub(&m, Variant::Direct64, 0x0FFF, false);
    assert_eq!(below, Err(ResolveError::MalformedImage));
    let beyond = read_stub(&m, Variant::Direct64, 0x101C, false);
    assert_eq!(beyond, Err(ResolveError::MalformedImage));
}
