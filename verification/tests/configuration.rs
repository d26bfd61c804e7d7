use split_tunnel::config::{checked_config_size, make_process_config};

const W: usize = std::mem::size_of::<usize>();

fn word(value: usize) -> Vec<u8> {
    value.to_le_bytes().to_vec()
}

fn utf16(text: &str) -> Vec<u16> {
    text.encode_utf16().collect()
}

fn packed(units: &[u16]) -> Vec<u8> {
    units.iter().flat_map(|unit| unit.to_le_bytes()).collect()
}

#[test]
fn configuration_of_two_paths_has_header_entries_and_names() {
    let first = utf16("\\Device\\HarddiskVolume1\\a.exe");
    let second = utf16("\\Device\\HarddiskVolume1\\b.exe");
    let apps = vec![first.clone(), second.clone()];
    let total = 2 * W + 2 * 2 * W + 2 * first.len() + 2 * second.len();

    let mut expected = Vec::new();
    expected.extend(word(2));
    expected.extend(word(total));
    expected.extend(word(0));
    expected.extend(word(2 * first.len()));
    expected.extend(word(2 * first.len()));
    expected.extend(word(2 * second.len()));
    expected.extend(packed(&first));
    expected.extend(packed(&second));

    let buffer = make_process_config(&apps);
    assert_eq!(buffer.len(), total);
    assert_eq!(buffer, expected);
}

#[test]
fn configuration_entry_points_at_its_name() {
    let apps = vec![utf16("one"), utf16(""), utf16("three")];
    let buffer = make_process_config(&apps);
    let strings = 2 * W + 3 * 2 * W;
    for (i, app) in apps.iter().enumerate() {
        let entry = 2 * W + i * 2 * W;
        let offset = usize::from_le_bytes(buffer[entry..entry + W].try_into().unwrap());
        let length =
            u16::from_le_bytes(buffer[entry + W..entry + W + 2].try_into().unwrap()) as usize;
        assert_eq!(length, 2 * app.len());
        assert_eq!(
            &buffer[strings + offset..strings + offset + length],
            packed(app).as_slice()
        );
        assert!(buffer[entry + W + 2..entry + 2 * W].iter().all(|&b| b == 0));
    }
}

#[test]
fn configuration_of_one_path_in_exact_bytes() {
    let buffer = make_process_config(&vec![vec![0x0041u16, 0x20AC]]);
    let mut expected = Vec::new();
    expected.extend(word(1));
    expected.extend(word(4 * W + 4));
    expected.extend(word(0));
    expected.extend(word(4));
    expected.extend([0x41, 0x00, 0xAC, 0x20]);
    assert_eq!(buffer, expected);
}

#[test]
fn configuration_without_paths_is_a_bare_header() {
    let buffer = make_process_config(&Vec::new());
    let mut expected = word(0);
    expected.extend(word(2 * W));
    assert_eq!(buffer, expected);
}

#[test]
fn name_length_keeps_sixteen_bits() {
    let long = vec![0x61u16; 32768];
    let buffer = make_process_config(&vec![long]);
    let entry = 2 * W;
    assert_eq!(
        usize::from_le_bytes(buffer[entry + W..entry + 2 * W].try_into().unwrap()),
        0
    );
    assert_eq!(buffer.len(), 4 * W + 65536);
}

#[test]
fn checked_size_is_the_length_of_the_buffer() {
    let apps = vec![utf16("abc"), utf16("\\Device\\x")];
    assert_eq!(
        checked_config_size(&apps),
        Some(make_process_config(&apps).len())
    );
    assert_eq!(checked_config_size(&Vec::new()), Some(2 * W));
}
