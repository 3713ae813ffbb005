use any_uart::discovery::{compat_family, match_family, NodeModel};
use any_uart::fdtcheck::check_fdt;
use any_uart::{init, ControllerFamily, IoKind, Uart};

const FDT_BEGIN_NODE: u32 = 1;
const FDT_END_NODE: u32 = 2;
const FDT_PROP: u32 = 3;
const FDT_END: u32 = 9;

/// Builds a minimal flattened device tree blob: header, empty memory
/// reservation block, structure block, strings block.
struct FdtBuilder {
    structure: Vec<u8>,
    strings: Vec<u8>,
}

impl FdtBuilder {
    fn new() -> Self {
        FdtBuilder { structure: Vec::new(), strings: Vec::new() }
    }

    fn push_u32(&mut self, v: u32) {
        self.structure.extend_from_slice(&v.to_be_bytes());
    }

    fn pad4(&mut self) {
        while self.structure.len() % 4 != 0 {
            self.structure.push(0);
        }
    }

    fn string_offset(&mut self, name: &str) -> u32 {
        let off = self.strings.len() as u32;
        self.strings.extend_from_slice(name.as_bytes());
        self.strings.push(0);
        off
    }

    fn begin_node(&mut self, name: &str) {
        self.push_u32(FDT_BEGIN_NODE);
        self.structure.extend_from_slice(name.as_bytes());
        self.structure.push(0);
        self.pad4();
    }

    fn end_node(&mut self) {
        self.push_u32(FDT_END_NODE);
    }

    fn prop_raw(&mut self, name: &str, value: &[u8]) {
        let off = self.string_offset(name);
        self.push_u32(FDT_PROP);
        self.push_u32(value.len() as u32);
        self.push_u32(off);
        self.structure.extend_from_slice(value);
        self.pad4();
    }

    fn prop_str(&mut self, name: &str, value: &str) {
        let mut v = value.as_bytes().to_vec();
        v.push(0);
        self.prop_raw(name, &v);
    }

    fn prop_u32(&mut self, name: &str, value: u32) {
        self.prop_raw(name, &value.to_be_bytes());
    }

    fn prop_u32s(&mut self, name: &str, values: &[u32]) {
        let mut v = Vec::new();
        for x in values {
            v.extend_from_slice(&x.to_be_bytes());
        }
        self.prop_raw(name, &v);
    }

    fn finish(mut self) -> Vec<u8> {
        self.push_u32(FDT_END);
        let header_len = 40usize;
        let rsv_len = 16usize;
        let off_struct = (header_len + rsv_len) as u32;
        let size_struct = self.structure.len() as u32;
        let off_strings = off_struct + size_struct;
        let size_strings = self.strings.len() as u32;
        let total = off_strings + size_strings;

        let mut out = Vec::new();
        for v in [
            0xd00dfeedu32,
            total,
            off_struct,
            off_strings,
            header_len as u32,
            17,
            16,
            0,
            size_strings,
            size_struct,
        ] {
            out.extend_from_slice(&v.to_be_bytes());
        }
        out.extend_from_slice(&[0u8; 16]);
        out.extend_from_slice(&self.structure);
        out.extend_from_slice(&self.strings);
        out
    }
}

fn blob_with_stdout(compatible: &str) -> Vec<u8> {
    let mut b = FdtBuilder::new();
    b.begin_node("");
    b.prop_u32("#address-cells", 2);
    b.prop_u32("#size-cells", 2);
    b.begin_node("chosen");
    b.prop_str("stdout-path", "/uart@9000000");
    b.end_node();
    b.begin_node("uart@9000000");
    b.prop_str("compatible", compatible);
    b.prop_u32s("reg", &[0, 0x0900_0000, 0, 0x1000]);
    b.end_node();
    b.end_node();
    b.finish()
}

fn blob_with_bootargs(bootargs: &str, reg_addr: u32) -> Vec<u8> {
    let mut b = FdtBuilder::new();
    b.begin_node("");
    b.prop_u32("#address-cells", 2);
    b.prop_u32("#size-cells", 2);
    b.begin_node("chosen");
    b.prop_str("bootargs", bootargs);
    b.end_node();
    b.begin_node("serial@9000000");
    b.prop_str("compatible", "snps,dw-apb-uart");
    b.prop_u32s("reg", &[0, reg_addr, 0, 0x100]);
    b.end_node();
    b.end_node();
    b.finish()
}

#[test]
fn init_resolves_stdout_path_to_pl011() {
    let blob = blob_with_stdout("arm,pl011");
    let uart = init(&blob).expect("console should be found");
    assert_eq!(uart.family, ControllerFamily::Pl011);
    assert_eq!(uart.data.base, 0x0900_0000);
    assert_eq!(uart.data.io_kind, IoKind::Mmio32);
    assert!(uart.tx.is_some());
    assert!(uart.rx.is_some());
}

#[test]
fn init_matches_second_compatibility_entry() {
    // The match must not be limited to the first list entry: two strings,
    // the second being the accepted "arm,primecell".
    let blob = blob_with_stdout("widgetcorp,foo\0arm,primecell");
    let uart = init(&blob).expect("console should be found");
    assert_eq!(uart.family, ControllerFamily::Pl011);
}

#[test]
fn init_rejects_unknown_compatibility() {
    let blob = blob_with_stdout("widgetcorp,foo");
    assert!(init(&blob).is_none());
}

#[test]
fn init_falls_back_to_bootargs() {
    let blob = blob_with_bootargs("earlycon=uart8250,mmio32,0x9000000 root=/dev/sda", 0x0900_0000);
    let uart = init(&blob).expect("console should be found");
    assert_eq!(uart.family, ControllerFamily::Ns16550);
    assert_eq!(uart.data.base, 0x0900_0000);
    assert_eq!(uart.data.io_kind, IoKind::Mmio32);
}

#[test]
fn init_bootargs_requires_matching_node() {
    // The parsed address matches no node's register range: discovery fails.
    let blob = blob_with_bootargs("earlycon=uart8250,mmio32,0x9000000", 0x0800_0000);
    assert!(init(&blob).is_none());
}

#[test]
fn init_bootargs_rejects_non_uart_name() {
    let blob = blob_with_bootargs("earlycon=pl011,mmio32,0x9000000", 0x0900_0000);
    assert!(init(&blob).is_none());
}

#[test]
fn init_rejects_bad_blob() {
    assert!(init(&[0u8; 64]).is_none());
    assert!(init(&[]).is_none());
}

#[test]
fn new_by_fdt_node_resolves_a_node() {
    let node = NodeModel {
        compatibles: vec![b"arm,pl011".to_vec()],
        reg_addrs: Some(vec![0x0900_0000]),
    };
    let uart = Uart::new_by_fdt_node(&node).expect("node should resolve");
    assert_eq!(uart.family, ControllerFamily::Pl011);
    assert_eq!(uart.data.base, 0x0900_0000);
    assert_eq!(uart.data.io_kind, IoKind::Mmio32);
}

#[test]
fn new_by_fdt_node_requires_reg_and_family() {
    let no_reg = NodeModel { compatibles: vec![b"arm,pl011".to_vec()], reg_addrs: None };
    assert!(Uart::new_by_fdt_node(&no_reg).is_none());
    let empty_reg = NodeModel {
        compatibles: vec![b"arm,pl011".to_vec()],
        reg_addrs: Some(Vec::new()),
    };
    assert!(Uart::new_by_fdt_node(&empty_reg).is_none());
    let unknown = NodeModel {
        compatibles: vec![b"widgetcorp,foo".to_vec()],
        reg_addrs: Some(vec![0x1000]),
    };
    assert!(Uart::new_by_fdt_node(&unknown).is_none());
}

#[test]
fn validator_accepts_the_built_blobs() {
    assert!(check_fdt(&blob_with_stdout("arm,pl011")));
    assert!(check_fdt(&blob_with_bootargs("earlycon=uart,0x10", 0x10)));
}

#[test]
fn validator_rejects_malformed_blobs() {
    // Too short, and a wrong magic.
    assert!(!check_fdt(&[]));
    assert!(!check_fdt(&[0u8; 64]));
    let mut bad_magic = blob_with_stdout("arm,pl011");
    bad_magic[0] = 0;
    assert!(!check_fdt(&bad_magic));

    // A structure block reaching past the end of the blob.
    let mut truncated = blob_with_stdout("arm,pl011");
    truncated.truncate(48);
    assert!(!check_fdt(&truncated));
    assert!(init(&truncated).is_none());
}

#[test]
fn validator_rejects_alias_form_stdout_path() {
    // An alias-form stdout-path (no leading '/') is outside the validated
    // domain: the parser would try alias resolution, so discovery fails
    // cleanly instead.
    let mut b = FdtBuilder::new();
    b.begin_node("");
    b.prop_u32("#address-cells", 2);
    b.prop_u32("#size-cells", 2);
    b.begin_node("chosen");
    b.prop_str("stdout-path", "serial0:115200n8");
    b.end_node();
    b.end_node();
    let blob = b.finish();
    assert!(!check_fdt(&blob));
    assert!(init(&blob).is_none());
}

#[test]
fn validator_rejects_unterminated_property_name() {
    // The last strings-block name loses its NUL terminator: the parser
    // would read a placeholder name where the walk read the real one, so
    // the blob is rejected.
    let mut blob = blob_with_stdout("arm,pl011");
    let size_strings = u32::from_be_bytes(blob[32..36].try_into().unwrap());
    let total = u32::from_be_bytes(blob[4..8].try_into().unwrap());
    blob.pop();
    blob[32..36].copy_from_slice(&(size_strings - 1).to_be_bytes());
    blob[4..8].copy_from_slice(&(total - 1).to_be_bytes());
    assert!(!check_fdt(&blob));
    assert!(init(&blob).is_none());
}

#[test]
fn validator_rejects_end_token_with_open_node() {
    // An end-of-block token while a node is still open, with bytes after
    // it: the parser would yield the node and read on past the token.
    let mut b = FdtBuilder::new();
    b.begin_node("");
    b.prop_u32("#address-cells", 2);
    b.prop_u32("#size-cells", 2);
    b.begin_node("pending");
    b.push_u32(FDT_END);
    b.push_u32(FDT_BEGIN_NODE);
    let blob = b.finish();
    assert!(!check_fdt(&blob));
    assert!(init(&blob).is_none());
}

#[test]
fn validator_rejects_property_outside_any_node() {
    // A property token before the first node: the parser's per-level
    // metadata update underflows.
    let mut b = FdtBuilder::new();
    b.prop_u32("#address-cells", 2);
    b.begin_node("");
    b.end_node();
    let blob = b.finish();
    assert!(!check_fdt(&blob));
    assert!(init(&blob).is_none());
}

#[test]
fn empty_ranges_identity_translation_is_supported() {
    // A bus carrying the empty (identity) ranges and its own cell counts:
    // the console below it resolves, at its untranslated address.
    let mut b = FdtBuilder::new();
    b.begin_node("");
    b.prop_u32("#address-cells", 2);
    b.prop_u32("#size-cells", 2);
    b.begin_node("chosen");
    b.prop_str("stdout-path", "/soc/uart@9000000");
    b.end_node();
    b.begin_node("soc");
    b.prop_u32("#address-cells", 2);
    b.prop_u32("#size-cells", 2);
    b.prop_raw("ranges", &[]);
    b.begin_node("uart@9000000");
    b.prop_str("compatible", "arm,pl011");
    b.prop_u32s("reg", &[0, 0x0900_0000, 0, 0x1000]);
    b.end_node();
    b.end_node();
    b.end_node();
    let blob = b.finish();
    assert!(check_fdt(&blob));
    let uart = init(&blob).expect("console under the bus should be found");
    assert_eq!(uart.family, ControllerFamily::Pl011);
    assert_eq!(uart.data.base, 0x0900_0000);
}

#[test]
fn ranges_without_own_cells_is_rejected() {
    // An empty ranges on a node that declares no cell counts of its own:
    // the parser would unwrap them when the node is finished.
    let mut b = FdtBuilder::new();
    b.begin_node("");
    b.prop_u32("#address-cells", 2);
    b.prop_u32("#size-cells", 2);
    b.begin_node("soc");
    b.prop_raw("ranges", &[]);
    b.end_node();
    b.end_node();
    let blob = b.finish();
    assert!(!check_fdt(&blob));
    assert!(init(&blob).is_none());
}

#[test]
fn validator_resets_cell_flags_per_top_level_node() {
    // A second top-level node starts with a fresh metadata slot in the
    // parser: the first root's cell counts must not carry over to it.
    let mut b = FdtBuilder::new();
    b.begin_node("");
    b.prop_u32("#address-cells", 2);
    b.prop_u32("#size-cells", 2);
    b.end_node();
    b.begin_node("second");
    b.begin_node("uart@10");
    b.prop_str("compatible", "arm,pl011");
    b.prop_u32s("reg", &[0, 0x10, 0, 4]);
    b.end_node();
    b.end_node();
    let blob = b.finish();
    assert!(!check_fdt(&blob));
    assert!(init(&blob).is_none());
}

#[test]
fn validator_rejects_ranges_translation() {
    // Address translation through a non-empty ranges window is outside the
    // validated domain.
    let mut b = FdtBuilder::new();
    b.begin_node("");
    b.prop_u32("#address-cells", 2);
    b.prop_u32("#size-cells", 2);
    b.begin_node("soc");
    b.prop_u32("#address-cells", 2);
    b.prop_u32("#size-cells", 2);
    b.prop_u32s("ranges", &[0, 0, 0, 0, 0, 0x1000]);
    b.end_node();
    b.end_node();
    let blob = b.finish();
    assert!(!check_fdt(&blob));
    assert!(init(&blob).is_none());
}

#[test]
fn validator_rejects_missing_root_cells() {
    // A tree whose root declares no cell counts cannot place a reg-bearing
    // child, so it is rejected before the parser walks it.
    let mut b = FdtBuilder::new();
    b.begin_node("");
    b.begin_node("uart@10");
    b.prop_str("compatible", "arm,pl011");
    b.prop_u32s("reg", &[0, 0x10, 0, 4]);
    b.end_node();
    b.end_node();
    let blob = b.finish();
    assert!(!check_fdt(&blob));
    assert!(init(&blob).is_none());
}

#[test]
fn compat_matching_priority_and_containment() {
    assert_eq!(
        compat_family(b"brcm,bcm2835-aux-uart"),
        Some(ControllerFamily::AuxMini)
    );
    assert_eq!(compat_family(b"arm,pl011"), Some(ControllerFamily::Pl011));
    assert_eq!(compat_family(b"arm,primecell"), Some(ControllerFamily::Pl011));
    assert_eq!(compat_family(b"snps,dw-apb-uart"), Some(ControllerFamily::Ns16550));
    // Containment, not equality: a vendor-prefixed variant still matches.
    assert_eq!(
        compat_family(b"vendor,arm,pl011-compatible"),
        Some(ControllerFamily::Pl011)
    );
    assert_eq!(compat_family(b"widgetcorp,foo"), None);
}

#[test]
fn match_family_takes_first_matching_string() {
    let list: Vec<Vec<u8>> = vec![b"widgetcorp,foo".to_vec(), b"arm,primecell".to_vec()];
    assert_eq!(match_family(&list), Some(ControllerFamily::Pl011));

    let list: Vec<Vec<u8>> = vec![b"snps,dw-apb-uart".to_vec(), b"arm,pl011".to_vec()];
    assert_eq!(match_family(&list), Some(ControllerFamily::Ns16550));

    let empty: Vec<Vec<u8>> = Vec::new();
    assert_eq!(match_family(&empty), None);
}
