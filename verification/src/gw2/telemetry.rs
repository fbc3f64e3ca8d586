//! States derived from Mumble ticks and render-frame progress.
use vstd::prelude::*;
use vstd::arithmetic::power2::{
    lemma_pow2_adds, lemma_pow2_pos, lemma_pow2_strictly_increases, pow2,
};
use vstd::bits::lemma_u64_shr_is_div;
use vstd::std_specs::cmp::PartialEqSpec;
use crate::float_bits::{
    compare_equal, equal, exponent, finite, not_a_number, significand, INFINITE, SIGN,
};

verus! {

/// The bit pattern of 0.90, the factor of the small interface.
pub const SCALE_SMALL: u32 = 0x3f66_6666;

/// The bit pattern of 1.00, the factor of the normal interface.
pub const SCALE_NORMAL: u32 = 0x3f80_0000;

/// The bit pattern of 1.11, the factor of the large interface.
pub const SCALE_LARGE: u32 = 0x3f8e_147b;

/// The bit pattern of 1.22, the factor of the larger interface.
pub const SCALE_LARGER: u32 = 0x3f9c_28f6;

/// Returns the scaling factor of an interface size, as the bit pattern of a
/// single-precision number. Unknown sizes are normal.
pub fn ui_scaling_factor(scale: u8) -> (factor: u32)
    ensures
        factor == (if scale == 0 {
            SCALE_SMALL
        } else if scale == 2 {
            SCALE_LARGE
        } else if scale == 3 {
            SCALE_LARGER
        } else {
            SCALE_NORMAL
        }),
{
    match scale {
        0 => SCALE_SMALL,
        2 => SCALE_LARGE,
        3 => SCALE_LARGER,
        _ => SCALE_NORMAL,
    }
}

/// The thousandths in the magnitude of a number, truncated.
pub open spec fn thousandths(bits: u32) -> int {
    if exponent(bits) >= 0 {
        1000 * significand(bits) * pow2(exponent(bits) as nat)
    } else {
        (1000 * significand(bits)) / (pow2((-exponent(bits)) as nat) as int)
    }
}

/// The thousandths in a number, truncated towards zero.
pub open spec fn signed_thousandths(bits: u32) -> int {
    if bits >= 0x8000_0000 {
        -thousandths(bits)
    } else {
        thousandths(bits)
    }
}

/// Whether two coordinates count as equal: both numbers have the same
/// truncated thousandths. Infinities equal themselves.
pub open spec fn component_equal(left: u32, right: u32) -> bool {
    if not_a_number(left) || not_a_number(right) {
        false
    } else if finite(left) && finite(right) {
        signed_thousandths(left) == signed_thousandths(right)
    } else {
        left == right
    }
}

/// Whether two vectors count as equal.
pub open spec fn vector_equal(left: [u32; 3], right: [u32; 3]) -> bool {
    component_equal(left[0], right[0]) && component_equal(left[1], right[1]) && component_equal(
        left[2],
        right[2],
    )
}

proof fn lemma_large(bits: u32)
    requires
        finite(bits),
        exponent(bits) >= 0,
    ensures
        0x80_0000 <= significand(bits) < 0x100_0000,
        thousandths(bits) == 1000 * significand(bits) * pow2(exponent(bits) as nat),
        thousandths(bits) >= 1000 * 0x80_0000,
{
    let power = pow2(exponent(bits) as nat);
    lemma_pow2_pos(exponent(bits) as nat);
    assert(1000 * significand(bits) * power >= 1000 * 0x80_0000) by (nonlinear_arith)
        requires
            significand(bits) >= 0x80_0000,
            power >= 1,
    ;
}

proof fn lemma_small(bits: u32)
    requires
        finite(bits),
        exponent(bits) < 0,
    ensures
        0 <= thousandths(bits) < 1000 * 0x80_0000,
{
    let shift = (-exponent(bits)) as nat;
    let scaled = 1000 * significand(bits);
    lemma_pow2_pos(shift);
    assert(pow2(1) == 2) by {
        vstd::arithmetic::power2::lemma2_to64();
    }
    if shift > 1 {
        lemma_pow2_strictly_increases(1, shift);
    }
    let power = pow2(shift) as int;
    assert(0 <= scaled / power < 1000 * 0x80_0000) by (nonlinear_arith)
        requires
            0 <= scaled < 2000 * 0x80_0000,
            power >= 2,
    ;
}

/// Numbers without a fractional part have the same thousandths only if they
/// are the same.
proof fn lemma_large_differ(left: u32, right: u32)
    requires
        finite(left),
        finite(right),
        exponent(left) >= 0,
        exponent(right) >= 0,
        thousandths(left) == thousandths(right),
    ensures
        left as int % 0x8000_0000 == right as int % 0x8000_0000,
{
    lemma_large(left);
    lemma_large(right);
    let e1 = exponent(left) as nat;
    let e2 = exponent(right) as nat;
    if e1 < e2 {
        lemma_apart(significand(left), e1, significand(right), e2);
    } else if e2 < e1 {
        lemma_apart(significand(right), e2, significand(left), e1);
    } else {
        let power = pow2(e1) as int;
        lemma_pow2_pos(e1);
        let first = significand(left);
        let second = significand(right);
        assert(first == second) by (nonlinear_arith)
            requires
                1000 * first * power == 1000 * second * power,
                power > 0,
        ;
    }
}

proof fn lemma_apart(small: int, e1: nat, large: int, e2: nat)
    requires
        e1 < e2,
        0x80_0000 <= small < 0x100_0000,
        0x80_0000 <= large < 0x100_0000,
    ensures
        1000 * small * pow2(e1) < 1000 * large * pow2(e2),
{
    lemma_pow2_pos(e1);
    lemma_pow2_adds(e1, (e2 - e1) as nat);
    assert(pow2(1) == 2) by {
        vstd::arithmetic::power2::lemma2_to64();
    }
    if e2 - e1 > 1 {
        lemma_pow2_strictly_increases(1, (e2 - e1) as nat);
    }
    let base = pow2(e1) as int;
    let gap = pow2((e2 - e1) as nat) as int;
    assert(1000 * small * base < 1000 * large * (base * gap)) by (nonlinear_arith)
        requires
            small < 0x100_0000,
            large >= 0x80_0000,
            base > 0,
            gap >= 2,
    ;
    assert(pow2(e2) == base * gap);
}

/// The truncated thousandths of a number with a fractional part.
fn fractional_thousandths(significand_value: u64, shift: u64) -> (count: u64)
    requires
        significand_value < 0x100_0000,
        0 < shift,
    ensures
        count == (1000 * significand_value) / (pow2(shift as nat) as int),
{
    let scaled: u64 = 1000 * significand_value;
    if shift >= 64 {
        proof {
            if shift > 64 {
                lemma_pow2_strictly_increases(64, shift as nat);
            }
            vstd::arithmetic::power2::lemma2_to64();
            let power = pow2(shift as nat) as int;
            assert(scaled as int / power == 0) by (nonlinear_arith)
                requires
                    0 <= scaled < power,
            ;
        }
        return 0;
    }
    proof {
        lemma_u64_shr_is_div(scaled, shift);
    }
    scaled >> shift
}

fn component_equal_legacy(left: u32, right: u32) -> (result: bool)
    ensures
        result == component_equal(left, right),
{
    let first: u32 = left % SIGN;
    let second: u32 = right % SIGN;
    if first > INFINITE || second > INFINITE {
        return false;
    }
    if first == INFINITE || second == INFINITE {
        return left == right;
    }
    let first_biased: u32 = first / 0x80_0000;
    let second_biased: u32 = second / 0x80_0000;
    let first_large = first_biased >= 150;
    let second_large = second_biased >= 150;
    if first_large || second_large {
        proof {
            if first_large {
                lemma_large(left);
            } else {
                lemma_small(left);
            }
            if second_large {
                lemma_large(right);
            } else {
                lemma_small(right);
            }
            if first_large && second_large && thousandths(left) == thousandths(right) {
                lemma_large_differ(left, right);
            }
        }
        return left == right;
    }
    let first_significand: u64 = if first >= 0x80_0000 {
        0x80_0000 + (first % 0x80_0000) as u64
    } else {
        first as u64
    };
    let second_significand: u64 = if second >= 0x80_0000 {
        0x80_0000 + (second % 0x80_0000) as u64
    } else {
        second as u64
    };
    let first_shift: u64 = if first_biased == 0 {
        149
    } else {
        (150 - first_biased) as u64
    };
    let second_shift: u64 = if second_biased == 0 {
        149
    } else {
        (150 - second_biased) as u64
    };
    proof {
        assert(left as int % 0x80_0000 == first as int % 0x80_0000);
        assert(right as int % 0x80_0000 == second as int % 0x80_0000);
        lemma_small(left);
        lemma_small(right);
    }
    let first_count = fractional_thousandths(first_significand, first_shift);
    let second_count = fractional_thousandths(second_significand, second_shift);
    first_count == second_count && (first_count == 0 || (left >= SIGN) == (right >= SIGN))
}

fn vector3_equal_legacy(left: [u32; 3], right: [u32; 3]) -> (result: bool)
    ensures
        result == vector_equal(left, right),
{
    component_equal_legacy(left[0], right[0]) && component_equal_legacy(left[1], right[1])
        && component_equal_legacy(left[2], right[2])
}

/// One coherent snapshot of the shared memory. Coordinates are bit patterns of
/// single-precision numbers, and texts are UTF-16 code units.
#[derive(Clone, Copy, Debug)]
pub struct MumbleData {
    /// Version of the layout.
    pub ui_version: u32,
    /// Tick of the producer.
    pub ui_tick: u32,
    /// Position of the avatar.
    pub avatar_position: [u32; 3],
    /// Direction that the avatar faces.
    pub avatar_front: [u32; 3],
    /// Direction above the avatar.
    pub avatar_top: [u32; 3],
    /// Name of the producer.
    pub name: [u16; 256],
    /// Position of the camera.
    pub camera_position: [u32; 3],
    /// Direction of the camera.
    pub camera_front: [u32; 3],
    /// Direction above the camera.
    pub camera_top: [u32; 3],
    /// Identity document.
    pub identity: [u16; 256],
    /// Bytes of the context that are meant.
    pub context_length: u32,
    /// Context, byte by byte.
    pub context: [u8; 256],
    /// Description of the producer.
    pub description: [u16; 2048],
}

impl Default for MumbleData {
    fn default() -> (data: Self)
        ensures
            data.ui_version == 0,
            data.ui_tick == 0,
            data.avatar_position@ == seq![0u32, 0u32, 0u32],
            data.avatar_front@ == seq![0u32, 0u32, 0u32],
            data.avatar_top@ == seq![0u32, 0u32, 0u32],
            data.name@ == Seq::new(256, |i: int| 0u16),
            data.camera_position@ == seq![0u32, 0u32, 0u32],
            data.camera_front@ == seq![0u32, 0u32, 0u32],
            data.camera_top@ == seq![0u32, 0u32, 0u32],
            data.identity@ == Seq::new(256, |i: int| 0u16),
            data.context_length == 0,
            data.context@ == Seq::new(256, |i: int| 0u8),
            data.description@ == Seq::new(2048, |i: int| 0u16),
    {
        Self {
            ui_version: 0,
            ui_tick: 0,
            avatar_position: [0, 0, 0],
            avatar_front: [0, 0, 0],
            avatar_top: [0, 0, 0],
            name: [0; 256],
            camera_position: [0, 0, 0],
            camera_front: [0, 0, 0],
            camera_top: [0, 0, 0],
            identity: [0; 256],
            context_length: 0,
            context: [0; 256],
            description: [0; 2048],
        }
    }
}

/// Whether two vectors compare equal, coordinate by coordinate.
pub open spec fn vectors_compare_equal(left: [u32; 3], right: [u32; 3]) -> bool {
    &&& compare_equal(left[0], right[0])
    &&& compare_equal(left[1], right[1])
    &&& compare_equal(left[2], right[2])
}

fn vectors_equal(left: [u32; 3], right: [u32; 3]) -> (same: bool)
    ensures
        same == vectors_compare_equal(left, right),
{
    equal(left[0], right[0]) && equal(left[1], right[1]) && equal(left[2], right[2])
}

fn units_equal(left: &[u16], right: &[u16]) -> (same: bool)
    ensures
        same == (left@ == right@),
{
    if left.len() != right.len() {
        return false;
    }
    let mut i: usize = 0;
    while i < left.len()
        invariant
            i <= left@.len() == right@.len(),
            forall|j: int| 0 <= j < i ==> #[trigger] left@[j] == right@[j],
        decreases left@.len() - i,
    {
        if left[i] != right[i] {
            proof {
                assert(left@[i as int] != right@[i as int]);
            }
            return false;
        }
        i = i + 1;
    }
    proof {
        assert(left@ =~= right@);
    }
    true
}

fn bytes_equal(left: &[u8], right: &[u8]) -> (same: bool)
    ensures
        same == (left@ == right@),
{
    if left.len() != right.len() {
        return false;
    }
    let mut i: usize = 0;
    while i < left.len()
        invariant
            i <= left@.len() == right@.len(),
            forall|j: int| 0 <= j < i ==> #[trigger] left@[j] == right@[j],
        decreases left@.len() - i,
    {
        if left[i] != right[i] {
            proof {
                assert(left@[i as int] != right@[i as int]);
            }
            return false;
        }
        i = i + 1;
    }
    proof {
        assert(left@ =~= right@);
    }
    true
}

impl vstd::std_specs::cmp::PartialEqSpecImpl for MumbleData {
    open spec fn obeys_eq_spec() -> bool {
        true
    }

    open spec fn eq_spec(&self, other: &Self) -> bool {
        &&& self.ui_version == other.ui_version
        &&& self.ui_tick == other.ui_tick
        &&& vectors_compare_equal(self.avatar_position, other.avatar_position)
        &&& vectors_compare_equal(self.avatar_front, other.avatar_front)
        &&& vectors_compare_equal(self.avatar_top, other.avatar_top)
        &&& vectors_compare_equal(self.camera_position, other.camera_position)
        &&& vectors_compare_equal(self.camera_front, other.camera_front)
        &&& vectors_compare_equal(self.camera_top, other.camera_top)
        &&& self.name@ == other.name@
        &&& self.identity@ == other.identity@
        &&& self.context_length == other.context_length
        &&& self.context@ == other.context@
        &&& self.description@ == other.description@
    }
}

impl PartialEq for MumbleData {
    fn eq(&self, other: &Self) -> (same: bool) {
        self.ui_version == other.ui_version && self.ui_tick == other.ui_tick
            && vectors_equal(self.avatar_position, other.avatar_position)
            && vectors_equal(self.avatar_front, other.avatar_front)
            && vectors_equal(self.avatar_top, other.avatar_top)
            && vectors_equal(self.camera_position, other.camera_position)
            && vectors_equal(self.camera_front, other.camera_front)
            && vectors_equal(self.camera_top, other.camera_top)
            && units_equal(self.name.as_slice(), other.name.as_slice())
            && units_equal(self.identity.as_slice(), other.identity.as_slice())
            && self.context_length == other.context_length
            && bytes_equal(self.context.as_slice(), other.context.as_slice())
            && units_equal(self.description.as_slice(), other.description.as_slice())
    }
}

/// States derived from Mumble ticks and render-frame progress.
#[derive(Clone, Copy, Debug, PartialEq, Eq, Structural)]
pub struct DerivedTelemetry {
    /// The avatar moved by at least one thousandth.
    pub is_moving: bool,
    /// The camera direction moved by at least one thousandth.
    pub is_camera_moving: bool,
    /// Gameplay is active according to the tick/freeze heuristic.
    pub is_gameplay: bool,
}

impl Default for DerivedTelemetry {
    fn default() -> (derived: Self)
        ensures
            derived == (DerivedTelemetry {
                is_moving: false,
                is_camera_moving: false,
                is_gameplay: false,
            }),
    {
        Self { is_moving: false, is_camera_moving: false, is_gameplay: false }
    }
}

/// Deterministic state machine for the derived values.
#[derive(Clone, Copy, Debug)]
pub struct TelemetryTracker {
    previous_tick: u32,
    previous_avatar_position: [u32; 3],
    previous_camera_front: [u32; 3],
    previous_frame_count: u64,
    previous: DerivedTelemetry,
}

/// What a tracker remembers.
pub struct TrackerModel {
    /// Tick of the last snapshot.
    pub tick: u32,
    /// Position of the avatar in the last snapshot.
    pub avatar_position: [u32; 3],
    /// Direction of the camera in the last snapshot.
    pub camera_front: [u32; 3],
    /// Frame count at the last snapshot.
    pub frame_count: u64,
    /// What was derived from the last snapshot.
    pub derived: DerivedTelemetry,
}

impl View for TelemetryTracker {
    type V = TrackerModel;

    closed spec fn view(&self) -> TrackerModel {
        TrackerModel {
            tick: self.previous_tick,
            avatar_position: self.previous_avatar_position,
            camera_front: self.previous_camera_front,
            frame_count: self.previous_frame_count,
            derived: self.previous,
        }
    }
}

/// What is derived from a snapshot, given what is remembered: gameplay goes on
/// while the producer ticks, and while a frozen game renders no frame.
pub open spec fn derived_from(tracker: TrackerModel, data: MumbleData, frame_count: u64) -> DerivedTelemetry {
    DerivedTelemetry {
        is_moving: !vector_equal(tracker.avatar_position, data.avatar_position),
        is_camera_moving: !vector_equal(tracker.camera_front, data.camera_front),
        is_gameplay: tracker.tick != data.ui_tick || (tracker.frame_count == frame_count
            && tracker.derived.is_gameplay),
    }
}

/// Whether a tracker has seen nothing yet: everything is zero.
pub open spec fn blank_tracker(tracker: TrackerModel) -> bool {
    &&& tracker.tick == 0
    &&& tracker.avatar_position@ == seq![0u32, 0u32, 0u32]
    &&& tracker.camera_front@ == seq![0u32, 0u32, 0u32]
    &&& tracker.frame_count == 0
    &&& tracker.derived == (DerivedTelemetry {
        is_moving: false,
        is_camera_moving: false,
        is_gameplay: false,
    })
}

impl Default for TelemetryTracker {
    fn default() -> (tracker: Self)
        ensures
            blank_tracker(tracker@),
    {
        let tracker = Self {
            previous_tick: 0,
            previous_avatar_position: [0, 0, 0],
            previous_camera_front: [0, 0, 0],
            previous_frame_count: 0,
            previous: DerivedTelemetry::default(),
        };
        proof {
            assert(tracker.previous_avatar_position@ =~= seq![0u32, 0u32, 0u32]);
            assert(tracker.previous_camera_front@ =~= seq![0u32, 0u32, 0u32]);
        }
        tracker
    }
}

impl TelemetryTracker {
    /// Advances the derived state from one coherent Mumble snapshot.
    pub fn advance(&mut self, data: &MumbleData, frame_count: u64) -> (derived: DerivedTelemetry)
        ensures
            derived == derived_from(old(self)@, *data, frame_count),
            final(self)@ == (TrackerModel {
                tick: data.ui_tick,
                avatar_position: data.avatar_position,
                camera_front: data.camera_front,
                frame_count,
                derived,
            }),
    {
        let tick_changed = self.previous_tick != data.ui_tick;
        let game_frozen = self.previous_frame_count == frame_count;
        let next = DerivedTelemetry {
            is_moving: !vector3_equal_legacy(self.previous_avatar_position, data.avatar_position),
            is_camera_moving: !vector3_equal_legacy(self.previous_camera_front, data.camera_front),
            is_gameplay: tick_changed || (game_frozen && self.previous.is_gameplay),
        };
        self.previous_tick = data.ui_tick;
        self.previous_avatar_position = data.avatar_position;
        self.previous_camera_front = data.camera_front;
        self.previous_frame_count = frame_count;
        self.previous = next;
        next
    }
}

/// A number always counts as equal to itself, and the order of comparison does
/// not matter.
pub proof fn law_component_equality_is_symmetric(left: u32, right: u32)
    ensures
        !not_a_number(left) ==> component_equal(left, left),
        component_equal(left, right) == component_equal(right, left),
{
}

/// Without a tick, gameplay ends as soon as a frame is rendered, and never
/// begins.
pub proof fn law_idle_frames_end_gameplay(tracker: TrackerModel, data: MumbleData, frame_count: u64)
    requires
        tracker.tick == data.ui_tick,
    ensures
        tracker.frame_count != frame_count ==> !derived_from(tracker, data, frame_count).is_gameplay,
        derived_from(tracker, data, frame_count).is_gameplay ==> tracker.derived.is_gameplay,
{
}

/// A change of any one coordinate is movement, of the avatar or of the camera,
/// and nothing else is.
pub proof fn law_any_coordinate_counts_as_movement(
    tracker: TrackerModel,
    data: MumbleData,
    frame_count: u64,
)
    ensures
        ({
            let derived = derived_from(tracker, data, frame_count);
            let (was, is) = (tracker.avatar_position@, data.avatar_position@);
            let (faced, faces) = (tracker.camera_front@, data.camera_front@);
            &&& derived.is_moving <==> exists|i: int|
                0 <= i < 3 && !component_equal(#[trigger] was[i], is[i])
            &&& derived.is_camera_moving <==> exists|i: int|
                0 <= i < 3 && !component_equal(#[trigger] faced[i], faces[i])
        }),
{
    let (was, is) = (tracker.avatar_position@, data.avatar_position@);
    let (faced, faces) = (tracker.camera_front@, data.camera_front@);
    let differs = |left: Seq<u32>, right: Seq<u32>| !component_equal(left[0], right[0])
        || !component_equal(left[1], right[1]) || !component_equal(left[2], right[2]);
    let derived = derived_from(tracker, data, frame_count);
    assert(derived.is_moving == differs(was, is));
    assert(derived.is_camera_moving == differs(faced, faces));
}

/// Coordinates that differ by a thousandth or more count as different, and
/// coordinates on either side of zero do unless both are below a thousandth.
pub proof fn law_thousandths_are_told_apart(left: u32, right: u32)
    requires
        finite(left),
        finite(right),
    ensures
        thousandths(left) != thousandths(right) ==> !component_equal(left, right),
        (left >= 0x8000_0000) == (right >= 0x8000_0000) && thousandths(left) == thousandths(right)
            ==> component_equal(left, right),
        left < 0x8000_0000 <= right && thousandths(left) > 0 ==> !component_equal(left, right),
        left < 0x8000_0000 <= right && thousandths(left) == 0 && thousandths(right) == 0
            ==> component_equal(left, right),
{
    lemma_not_negative(left);
    lemma_not_negative(right);
}

proof fn lemma_not_negative(bits: u32)
    requires
        finite(bits),
    ensures
        thousandths(bits) >= 0,
{
    if exponent(bits) >= 0 {
        lemma_large(bits);
    } else {
        lemma_small(bits);
    }
}

/// The thousandths of a number are the greatest count of thousandths that its
/// magnitude reaches.
pub proof fn law_thousandths_are_truncated(bits: u32)
    requires
        finite(bits),
    ensures
        exponent(bits) >= 0 ==> thousandths(bits) == significand(bits) * 1000 * pow2(
            exponent(bits) as nat,
        ),
        exponent(bits) < 0 ==> {
            let unit = pow2((-exponent(bits)) as nat) as int;
            thousandths(bits) * unit <= 1000 * significand(bits) < (thousandths(bits) + 1) * unit
        },
{
    if exponent(bits) < 0 {
        let unit = pow2((-exponent(bits)) as nat) as int;
        lemma_pow2_pos((-exponent(bits)) as nat);
        let scaled = 1000 * significand(bits);
        let count = thousandths(bits);
        assert(count * unit <= scaled < (count + 1) * unit) by (nonlinear_arith)
            requires
                count == scaled / unit,
                unit > 0,
        ;
    } else {
        assert(1000 * significand(bits) == significand(bits) * 1000);
    }
}

/// A number that is not one, and an infinity against anything but itself,
/// always count as movement.
pub proof fn law_only_numbers_stand_still(left: u32, right: u32)
    ensures
        left as int % 0x8000_0000 > 0x7f80_0000 ==> !component_equal(left, right)
            && !component_equal(right, left),
        left as int % 0x8000_0000 == 0x7f80_0000 && left != right ==> !component_equal(left, right)
            && !component_equal(right, left),
        left as int % 0x8000_0000 <= 0x7f80_0000 ==> component_equal(left, left),
{
}

/// Gameplay goes on whenever the producer ticked. Without a tick it goes on
/// exactly if it went on before and no frame was rendered since.
pub proof fn law_gameplay_follows_ticks_and_frames(
    tracker: TrackerModel,
    data: MumbleData,
    frame_count: u64,
)
    ensures
        data.ui_tick != tracker.tick ==> derived_from(tracker, data, frame_count).is_gameplay,
        data.ui_tick == tracker.tick && frame_count == tracker.frame_count ==> derived_from(
            tracker,
            data,
            frame_count,
        ).is_gameplay == tracker.derived.is_gameplay,
        data.ui_tick == tracker.tick && frame_count != tracker.frame_count ==> !derived_from(
            tracker,
            data,
            frame_count,
        ).is_gameplay,
{
}

/// Snapshots that compare equal agree in every part, and numbers that agree bit
/// by bit compare equal unless one is not a number.
pub proof fn law_equal_snapshots_agree_in_every_part(left: MumbleData, right: MumbleData, i: int)
    requires
        0 <= i < 3,
        left.eq_spec(&right),
    ensures
        left.ui_version == right.ui_version,
        left.ui_tick == right.ui_tick,
        left.context_length == right.context_length,
        left.name@ == right.name@,
        left.identity@ == right.identity@,
        left.context@ == right.context@,
        left.description@ == right.description@,
        compare_equal(left.avatar_position@[i], right.avatar_position@[i]),
        compare_equal(left.avatar_front@[i], right.avatar_front@[i]),
        compare_equal(left.avatar_top@[i], right.avatar_top@[i]),
        compare_equal(left.camera_position@[i], right.camera_position@[i]),
        compare_equal(left.camera_front@[i], right.camera_front@[i]),
        compare_equal(left.camera_top@[i], right.camera_top@[i]),
{
}

} // verus!
