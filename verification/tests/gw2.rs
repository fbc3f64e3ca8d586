use std::cell::{Cell, RefCell};

use nexus::gw2::identity::{
    identity_of, identity_text, parse_identity, IdentityDocument, IdentityParseError,
    MumbleIdentity,
};
use nexus::gw2::mapping::{
    after_create, after_open, copy_snapshot, wide_name, AfterOpen, FailedMapping, MappedMumbleLink,
    MappingDisposition, MappingOpenError, MumbleCopy, ERROR_ALREADY_EXISTS,
};
use nexus::gw2::reader::{IdentityUpdate, MumbleReader, MumbleSource, SnapshotError};
use nexus::gw2::telemetry::{ui_scaling_factor, MumbleData, TelemetryTracker, SCALE_NORMAL};

fn wide(text: &str) -> Vec<u16> {
    text.encode_utf16().chain([0]).collect()
}

fn small(value: &serde_json::Value) -> Option<u8> {
    u8::try_from(value.as_u64()?).ok()
}

fn number(value: &serde_json::Value) -> Option<u32> {
    u32::try_from(value.as_u64()?).ok()
}

/// Reads the text of an identity document as identity JSON.
fn document(json: String) -> Option<IdentityDocument> {
    let value: serde_json::Value = serde_json::from_str(&json).ok()?;
    Some(IdentityDocument {
        name: value["name"].as_str()?.to_owned(),
        profession: small(&value["profession"])?,
        spec: number(&value["spec"])?,
        race: small(&value["race"])?,
        map_id: number(&value["map_id"])?,
        world_id: number(&value["world_id"])?,
        team_color_id: number(&value["team_color_id"])?,
        commander: value["commander"].as_bool()?,
        fov: (value["fov"].as_f64()? as f32).to_bits(),
        uisz: small(&value["uisz"])?,
    })
}

fn parse(units: &[u16]) -> Result<MumbleIdentity, IdentityParseError> {
    parse_identity(units, document)
}

#[test]
fn parses_the_legacy_identity_shape() {
    let identity = parse(&wide(
        r#"{"name":"Example","profession":9,"spec":63,"race":2,"map_id":15,"world_id":1001,"team_color_id":4,"commander":true,"fov":1.2,"uisz":3}"#,
    ));
    assert!(identity.is_ok());
    let identity = identity.unwrap_or_default();
    assert_eq!(&identity.name[..8], b"Example\0");
    assert_eq!(identity.profession, 9);
    assert_eq!(identity.specialization, 63);
    assert_eq!(identity.race, 2);
    assert_eq!(identity.map_id, 15);
    assert_eq!(identity.world_id, 1001);
    assert_eq!(identity.team_color_id, 4);
    assert_eq!(identity.is_commander, 1);
    assert_eq!(identity.ui_size, 3);
    assert_eq!(f32::from_bits(identity.fov), 1.2);
}

#[test]
fn preserves_unknown_open_values() {
    let identity = parse(&wide(
        r#"{"name":"Future","profession":250,"spec":1,"race":251,"map_id":2,"world_id":3,"team_color_id":4,"commander":false,"fov":1.0,"uisz":252}"#,
    ))
    .unwrap_or_default();
    assert_eq!(identity.profession, 250);
    assert_eq!(identity.race, 251);
    assert_eq!(identity.ui_size, 252);
}

#[test]
fn rejects_overflow_and_malformed_documents_without_echoing_them() {
    let long_name = parse(&wide(
        r#"{"name":"12345678901234567890","profession":1,"spec":2,"race":3,"map_id":4,"world_id":5,"team_color_id":6,"commander":false,"fov":1.0,"uisz":1}"#,
    ));
    assert_eq!(long_name, Err(IdentityParseError::NameTooLong));
    assert_eq!(parse(&[]), Err(IdentityParseError::Empty));
    assert_eq!(parse(&[0xD800, 0]), Err(IdentityParseError::InvalidUtf16));
    assert_eq!(parse(&wide("not-json")), Err(IdentityParseError::InvalidJson));
}

fn named(name: &str) -> IdentityDocument {
    IdentityDocument {
        name: name.to_owned(),
        profession: 1,
        spec: 2,
        race: 3,
        map_id: 4,
        world_id: 5,
        team_color_id: 6,
        commander: false,
        fov: 1.0_f32.to_bits(),
        uisz: 1,
    }
}

#[test]
fn names_are_measured_in_bytes_and_terminated() {
    let longest = identity_of(&named("1234567890123456789")).expect("the name fits exactly");
    assert_eq!(&longest.name, b"1234567890123456789\0");
    assert_eq!(
        identity_of(&named("\u{e9}\u{e9}\u{e9}\u{e9}\u{e9}\u{e9}\u{e9}\u{e9}\u{e9}\u{e9}")),
        Err(IdentityParseError::NameTooLong)
    );
    assert_eq!(identity_of(&named("a\0b")), Err(IdentityParseError::EmbeddedNul));
    assert_eq!(
        identity_of(&named("a\0b4567890123456789012345")),
        Err(IdentityParseError::EmbeddedNul)
    );
    assert_eq!(
        IdentityParseError::EmbeddedNul.to_string(),
        "the Mumble identity name contains an embedded nul"
    );
}

#[test]
fn documents_end_at_their_first_nul() {
    assert_eq!(identity_text(&[0x41, 0x42, 0, 0x43]), Ok("AB".to_owned()));
    assert_eq!(identity_text(&[0x41, 0x42]), Ok("AB".to_owned()));
    assert_eq!(identity_text(&[0xd83d, 0xde00, 0]), Ok("\u{1f600}".to_owned()));
    assert_eq!(identity_text(&[0xd83d, 0x41]), Err(IdentityParseError::InvalidUtf16));
    assert_eq!(identity_text(&[0xde00]), Err(IdentityParseError::InvalidUtf16));
    assert_eq!(identity_text(&[0, 0x41]), Err(IdentityParseError::Empty));
}

struct CellSource {
    data: RefCell<Result<MumbleData, SnapshotError>>,
}

impl MumbleSource for CellSource {
    fn snapshot(&self) -> Result<MumbleData, SnapshotError> {
        self.data.borrow().clone()
    }
}

fn data_with_identity(json: &str) -> MumbleData {
    let mut data = MumbleData::default();
    for (slot, value) in data.identity.iter_mut().zip(json.encode_utf16()) {
        *slot = value;
    }
    data
}

const VALID: &str = r#"{"name":"Good","profession":1,"spec":2,"race":3,"map_id":4,"world_id":5,"team_color_id":6,"commander":false,"fov":1.0,"uisz":1}"#;

#[test]
fn invalid_identity_never_partially_replaces_the_last_good_value() {
    let source = CellSource { data: RefCell::new(Ok(data_with_identity(VALID))) };
    let mut reader = MumbleReader::new(source);
    let first = reader.poll(1, document);
    assert!(first.is_ok());
    assert!(matches!(
        first.ok().and_then(|poll| poll.identity.ok()),
        Some(IdentityUpdate::Updated(_))
    ));
    let previous = *reader.identity();

    reader.source().data.replace(Ok(data_with_identity("not-json")));
    let second = reader.poll(2, document);
    assert!(second.is_ok());
    assert!(second.is_ok_and(|poll| poll.identity.is_err()));
    assert_eq!(*reader.identity(), previous);
}

#[test]
fn empty_identity_is_distinct_from_a_parse_failure() {
    let source = CellSource { data: RefCell::new(Ok(MumbleData::default())) };
    let mut reader = MumbleReader::new(source);
    let result = reader.poll(1, document);
    assert!(result.is_ok_and(|poll| poll.identity == Ok(IdentityUpdate::Absent)));
}

#[test]
fn repeated_identities_and_unstable_snapshots_change_nothing() {
    let source = CellSource { data: RefCell::new(Ok(data_with_identity(VALID))) };
    let mut reader = MumbleReader::new(source);
    assert!(reader.poll(1, document).is_ok());
    let repeated = reader.poll(2, document).expect("the snapshot is coherent");
    assert_eq!(repeated.identity, Ok(IdentityUpdate::Unchanged));
    let previous = *reader.identity();

    reader.source().data.replace(Err(SnapshotError::Unstable));
    let error = reader.poll(3, document).expect_err("the snapshot is unstable");
    assert_eq!(
        error.to_string(),
        "the MumbleLink producer did not yield a coherent snapshot"
    );
    assert_eq!(*reader.identity(), previous);

    let unordered = MumbleIdentity { fov: f32::NAN.to_bits(), ..previous };
    assert_ne!(unordered, unordered);
    let zero = MumbleIdentity { fov: 0.0_f32.to_bits(), ..previous };
    let negative_zero = MumbleIdentity { fov: (-0.0_f32).to_bits(), ..previous };
    assert_eq!(zero, negative_zero);
}

#[test]
fn polls_compare_as_numbers_do() {
    let source = CellSource { data: RefCell::new(Ok(data_with_identity(VALID))) };
    let mut reader = MumbleReader::new(source);
    let poll = reader.poll(1, document).expect("the snapshot is coherent");
    let mut copy = poll;
    assert_eq!(copy, poll);
    copy.snapshot.avatar_position[1] = (-0.0_f32).to_bits();
    assert_eq!(copy, poll);
    copy.snapshot.avatar_position[1] = 0.5_f32.to_bits();
    assert_ne!(copy, poll);
    let mut unordered = poll;
    unordered.snapshot.camera_front[2] = f32::NAN.to_bits();
    assert_ne!(unordered, unordered);
    let mut renamed = poll;
    renamed.snapshot.identity[3] = u16::from(b'x');
    assert_ne!(renamed, poll);
    let mut later = poll;
    later.snapshot.ui_tick += 1;
    assert_ne!(later, poll);
    let changes: [fn(&mut MumbleData); 10] = [
        |data| data.ui_version += 1,
        |data| data.avatar_front[0] ^= 1,
        |data| data.avatar_top[1] ^= 1,
        |data| data.name[255] ^= 1,
        |data| data.camera_position[2] ^= 1,
        |data| data.camera_front[0] ^= 1,
        |data| data.camera_top[1] ^= 1,
        |data| data.context_length += 1,
        |data| data.context[255] ^= 1,
        |data| data.description[2047] ^= 1,
    ];
    for change in changes {
        let mut changed = poll;
        change(&mut changed.snapshot);
        assert_ne!(changed, poll);
    }
}

#[test]
fn scaling_matches_legacy_values_and_unknowns_are_safe() {
    assert_eq!(f32::from_bits(ui_scaling_factor(0)), 0.90);
    assert_eq!(f32::from_bits(ui_scaling_factor(1)), 1.00);
    assert_eq!(f32::from_bits(ui_scaling_factor(2)), 1.11);
    assert_eq!(f32::from_bits(ui_scaling_factor(3)), 1.22);
    assert_eq!(ui_scaling_factor(255), SCALE_NORMAL);
}

#[test]
fn movement_uses_the_legacy_truncated_thousandth_threshold() {
    let mut tracker = TelemetryTracker::default();
    let mut data = MumbleData {
        ui_tick: 1,
        avatar_position: [1.000_4_f32.to_bits(), 0, 0],
        ..MumbleData::default()
    };
    assert!(tracker.advance(&data, 1).is_moving);

    data.avatar_position[0] = 1.000_9_f32.to_bits();
    assert!(!tracker.advance(&data, 2).is_moving);

    data.avatar_position[0] = 1.001_1_f32.to_bits();
    assert!(tracker.advance(&data, 3).is_moving);
}

#[test]
fn gameplay_survives_a_frozen_game_but_not_an_advancing_idle_frame() {
    let mut tracker = TelemetryTracker::default();
    let mut data = MumbleData { ui_tick: 1, ..MumbleData::default() };
    assert!(tracker.advance(&data, 10).is_gameplay);
    assert!(tracker.advance(&data, 10).is_gameplay);
    assert!(!tracker.advance(&data, 11).is_gameplay);

    data.ui_tick = 2;
    assert!(tracker.advance(&data, 12).is_gameplay);
}

#[test]
fn movement_agrees_with_double_precision_arithmetic() {
    let samples: [f32; 24] = [
        0.0, -0.0, 1.0e-45, -1.0e-45, 0.000_4, -0.000_4, 0.000_999, -0.000_999, 0.001, -0.001,
        0.001_5, 0.5, 0.500_4, -0.500_4, 12.345_6, 12.345_9, 8_388_607.5, 8_388_608.0, 8_388_609.0,
        -8_388_609.0, 3.0e38, f32::INFINITY, f32::NEG_INFINITY, f32::NAN,
    ];
    for left in samples {
        for right in samples {
            let mut tracker = TelemetryTracker::default();
            let mut data = MumbleData::default();
            data.camera_front[2] = left.to_bits();
            tracker.advance(&data, 1);
            data.camera_front[2] = right.to_bits();
            let moving = tracker.advance(&data, 2).is_camera_moving;
            let equal =
                (f64::from(left) * 1_000.0).trunc() == (f64::from(right) * 1_000.0).trunc();
            assert_eq!(moving, !equal, "{left} {right}");
        }
    }
}

#[test]
fn mapping_name_errors_are_closed_and_redaction_safe() {
    let invalid: Vec<u16> = "invalid\0name".encode_utf16().collect();
    assert_eq!(wide_name(&invalid).err(), Some(MappingOpenError::EmbeddedNul));
    let name: Vec<u16> = "MumbleLink".encode_utf16().collect();
    assert_eq!(wide_name(&name), Ok(wide("MumbleLink")));
    assert_eq!(wide_name(&vec![0x41; 32_766]).map(|units| units.len()), Ok(32_767));
    assert_eq!(wide_name(&vec![0x41; 32_767]).err(), Some(MappingOpenError::NameTooLong));
    assert_eq!(
        MappingOpenError::OpenOrCreate { code: 5 }.to_string(),
        "Win32 could not open or create the MumbleLink mapping (error 5)"
    );
    assert_eq!(
        MappingOpenError::MapView { code: 8 }.to_string(),
        "Win32 could not map the MumbleLink view (error 8)"
    );
}

#[test]
fn mappings_are_opened_before_they_are_created() {
    assert_eq!(after_open(7), AfterOpen::MapView(MappingDisposition::OpenedExisting));
    assert_eq!(after_open(0), AfterOpen::Create);
    assert_eq!(after_create(0, 5), Err(MappingOpenError::OpenOrCreate { code: 5 }));
    assert_eq!(after_create(7, 0), Ok(MappingDisposition::CreatedNew));
    assert_eq!(
        after_create(7, ERROR_ALREADY_EXISTS),
        Ok(MappingDisposition::OpenedExisting)
    );
    assert_eq!(
        ERROR_ALREADY_EXISTS,
        windows_sys::Win32::Foundation::ERROR_ALREADY_EXISTS
    );
    let created = MappingDisposition::CreatedNew;
    assert_eq!(
        MappedMumbleLink::open_or_create(7, created, 0, 9),
        Err(FailedMapping {
            error: MappingOpenError::MapView { code: 9 },
            close: Some(7),
            unmap: None,
        })
    );
    assert_eq!(
        MappedMumbleLink::open_or_create(0, created, 8, 9),
        Err(FailedMapping {
            error: MappingOpenError::OpenOrCreate { code: 0 },
            close: None,
            unmap: Some(8),
        })
    );
    let link = MappedMumbleLink::open_or_create(7, created, 8, 0).expect("the view is mapped");
    assert_eq!(link.disposition(), created);
    assert_eq!(link.as_ptr(), 8);
    assert_eq!(link.release(), (8, 7));
}

#[test]
fn snapshots_are_retried_a_bounded_number_of_times() {
    let copies = Cell::new(0);
    let taken = |torn: u32| {
        let copies = &copies;
        move || {
            copies.set(copies.get() + 1);
            let tick = copies.get();
            let after = if tick <= torn { tick + 1 } else { tick };
            MumbleCopy {
                before: tick,
                data: MumbleData { ui_tick: tick, ..MumbleData::default() },
                after,
            }
        }
    };
    let first = copy_snapshot(taken(0)).expect("the first copy is coherent");
    assert_eq!(first.ui_tick, 1);
    copies.set(0);
    let fourth = copy_snapshot(taken(3)).expect("the fourth copy is coherent");
    assert_eq!(fourth.ui_tick, 4);
    copies.set(0);
    assert!(matches!(copy_snapshot(taken(4)), Err(SnapshotError::Unstable)));
    assert_eq!(copies.get(), 4);
}
