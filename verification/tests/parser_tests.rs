use any_uart::bytes::{bytes_eq, contains_bytes, find_byte, parse_hex_u64, strip_0x};
use any_uart::earlycon::{find_earlycon_token, parse_bootargs, parse_earlycon_token};
use any_uart::IoKind;

#[test]
fn full_bootargs_with_kind_token() {
    // The canonical three-value form: kind and hexadecimal address.
    let args = b"console=ttyS0 earlycon=uart8250,mmio32,0x09000000 root=/dev/sda";
    let (kind, addr) = parse_bootargs(args).unwrap();
    assert_eq!(kind, IoKind::Mmio32);
    assert_eq!(addr, 0x0900_0000);
}

#[test]
fn bootargs_without_kind_token_defaults_to_mmio() {
    // Two-value form: the second value is the address and the access kind
    // defaults to generic memory-mapped.
    let args = b"earlycon=uart,0x21000000";
    let (kind, addr) = parse_bootargs(args).unwrap();
    assert_eq!(kind, IoKind::Mmio);
    assert_eq!(addr, 0x2100_0000);
}

#[test]
fn name_without_uart_substring_is_rejected() {
    // The name check is the literal substring "uart": "pl011" fails it.
    assert_eq!(parse_bootargs(b"earlycon=pl011,mmio32,0x09000000"), None);
    // A vendor-flavoured name that does contain "uart" passes.
    let (kind, addr) = parse_bootargs(b"earlycon=myuart0,0x3000").unwrap();
    assert_eq!(kind, IoKind::Mmio);
    assert_eq!(addr, 0x3000);
}

#[test]
fn earlycon_keyword_must_appear_in_a_token() {
    assert_eq!(parse_bootargs(b"console=ttyS0 root=/dev/sda"), None);
    assert_eq!(parse_bootargs(b""), None);
    // The keyword may sit anywhere inside the token.
    assert!(parse_bootargs(b"x_earlycon=uart,0x10").is_some());
}

#[test]
fn earlycon_token_without_values_fails() {
    // No '=' at all, and no second value.
    assert_eq!(parse_bootargs(b"earlycon"), None);
    assert_eq!(parse_bootargs(b"earlycon=uart"), None);
    // Kind named but no third value for the address.
    assert_eq!(parse_bootargs(b"earlycon=uart8250,mmio32"), None);
}

#[test]
fn second_equals_ends_the_value_list() {
    // The value list is what stands between the first '=' and the next one:
    // what follows a second '=' is ignored.
    let (kind, addr) = parse_bootargs(b"earlycon=uart,0x40=trailing").unwrap();
    assert_eq!(kind, IoKind::Mmio);
    assert_eq!(addr, 0x40);
    let (kind, addr) = parse_bootargs(b"earlycon=uart,0x50 x=y").unwrap();
    assert_eq!(kind, IoKind::Mmio);
    assert_eq!(addr, 0x50);
}

#[test]
fn first_earlycon_token_wins() {
    let args = b"earlycon=uart,0x10 earlycon=uart,0x20";
    let (_, addr) = parse_bootargs(args).unwrap();
    assert_eq!(addr, 0x10);
}

#[test]
fn find_earlycon_token_picks_whole_token() {
    let t = find_earlycon_token(b"a earlycon=uart,1 b").unwrap();
    assert_eq!(t, b"earlycon=uart,1");
    assert_eq!(find_earlycon_token(b"ear lycon"), None);
}

#[test]
fn access_kind_name_table() {
    assert_eq!(parse_earlycon_token(b"earlycon=uart,mmio,0x1").unwrap().0, IoKind::Mmio);
    assert_eq!(parse_earlycon_token(b"earlycon=uart,mmio16,0x1").unwrap().0, IoKind::Mmio16);
    assert_eq!(parse_earlycon_token(b"earlycon=uart,mmio32,0x1").unwrap().0, IoKind::Mmio32);
    assert_eq!(parse_earlycon_token(b"earlycon=uart,mmio32be,0x1").unwrap().0, IoKind::Mmio32be);
    assert_eq!(
        parse_earlycon_token(b"earlycon=uart,mmio32native,0x1").unwrap().0,
        IoKind::Mmio32
    );
    // Anything else selects port I/O.
    assert_eq!(parse_earlycon_token(b"earlycon=uart,io,0x1").unwrap().0, IoKind::Port);
}

#[test]
fn io_kind_from_name_table() {
    assert_eq!(IoKind::from_name(b"mmio"), IoKind::Mmio);
    assert_eq!(IoKind::from_name(b"mmio16"), IoKind::Mmio16);
    assert_eq!(IoKind::from_name(b"mmio32"), IoKind::Mmio32);
    assert_eq!(IoKind::from_name(b"mmio32be"), IoKind::Mmio32be);
    assert_eq!(IoKind::from_name(b"mmio32native"), IoKind::Mmio32);
    assert_eq!(IoKind::from_name(b"something"), IoKind::Port);
    assert_eq!(IoKind::from_name(b""), IoKind::Port);
}

#[test]
fn hex_parsing_accepts_prefix_and_plus() {
    assert_eq!(parse_hex_u64(b"1f"), Some(0x1F));
    assert_eq!(parse_hex_u64(strip_0x(b"0x1f")), Some(0x1F));
    assert_eq!(parse_hex_u64(b"+1F"), Some(0x1F));
    assert_eq!(parse_hex_u64(b"FFFFFFFFFFFFFFFF"), Some(u64::MAX));
    assert_eq!(parse_hex_u64(b"0"), Some(0));
}

#[test]
fn hex_parsing_rejects_bad_input() {
    assert_eq!(parse_hex_u64(b""), None);
    assert_eq!(parse_hex_u64(b"+"), None);
    assert_eq!(parse_hex_u64(b"12g4"), None);
    // One digit over 64 bits.
    assert_eq!(parse_hex_u64(b"10000000000000000"), None);
}

#[test]
fn strip_0x_removes_one_prefix() {
    assert_eq!(strip_0x(b"0x10"), b"10");
    assert_eq!(strip_0x(b"10"), b"10");
    assert_eq!(strip_0x(b"0x"), b"");
    // Only one prefix goes.
    assert_eq!(strip_0x(b"0x0x10"), b"0x10");
}

#[test]
fn contains_and_equality_helpers() {
    assert!(contains_bytes(b"brcm,bcm2835-aux-uart", b"uart"));
    assert!(!contains_bytes(b"arm,pl011", b"uart"));
    assert!(contains_bytes(b"abc", b""));
    assert!(!contains_bytes(b"ab", b"abc"));
    assert!(bytes_eq(b"mmio", b"mmio"));
    assert!(!bytes_eq(b"mmio", b"mmio16"));
    assert_eq!(find_byte(b"a=b", b'='), 1);
    assert_eq!(find_byte(b"ab", b'='), 2);
}

#[test]
fn empty_values_are_rejected() {
    // An empty name, an empty second value, an empty address.
    assert_eq!(parse_bootargs(b"earlycon=,0x10"), None);
    assert_eq!(parse_bootargs(b"earlycon=uart,"), None);
    assert_eq!(parse_bootargs(b"earlycon=uart,mmio32,"), None);
}

#[test]
fn address_larger_than_32_bits_is_kept() {
    let (_, addr) = parse_bootargs(b"earlycon=uart,0xfe00000000").unwrap();
    assert_eq!(addr, 0xFE_0000_0000);
}
