//! The custom light layer: per-key colors as the user sets them, and their
//! wire form with seven shared levels per channel.
use vstd::prelude::*;

use crate::bitfield::{BitArray, BitField, NibbleArray, NibbleField};
use crate::ryosmkfx::hardware_color::{
    level_of, lemma_color_round_trip, spec_from_color, spec_to_color, HardwareColor,
};
use crate::ryosmkfx::quantizer::{
    assign, distinct_values, initial_means, is_nearest, iterate, lemma_few_values_exact,
    lemma_nearest_exists, lemma_quantize_nearest,
    quantize, quantize_channel, update, KEYS, SLOTS, UNASSIGNED,
};
use crate::report::{append_bytes, take_bytes, Report, ReportLayout, ReportRead, ReportWrite, SizeField};
use crate::ryosmkfx::sdk::{sdk_index_to_light_index, spec_sdk_index_to_light_index};

verus! {

/// Color and on/off state of one key.
#[derive(Clone, Copy, Debug, PartialEq, Eq)]
pub struct LightLayerKey {
    pub red: u8,
    pub green: u8,
    pub blue: u8,
    pub state: bool,
}

/// A key that is off and black.
pub open spec fn blank_key() -> LightLayerKey {
    LightLayerKey { red: 0, green: 0, blue: 0, state: false }
}

impl Default for LightLayerKey {
    fn default() -> (r: Self)
        ensures
            r == blank_key(),
    {
        LightLayerKey { red: 0, green: 0, blue: 0, state: false }
    }
}

/// Per-key colors and states, by physical light index.
#[derive(Clone, Copy, Debug)]
pub struct LightLayerData {
    keys: [LightLayerKey; 256],
}

impl View for LightLayerData {
    type V = Seq<LightLayerKey>;

    closed spec fn view(&self) -> Seq<LightLayerKey> {
        self.keys@
    }
}

/// The channel values of the keys addressed by a light layer.
pub open spec fn channel(keys: Seq<LightLayerKey>, which: int) -> Seq<u8> {
    Seq::new(
        KEYS as nat,
        |i: int|
            if which == 0 {
                keys[i].red
            } else if which == 1 {
                keys[i].green
            } else {
                keys[i].blue
            },
    )
}

/// The states of the keys addressed by a light layer.
pub open spec fn states(keys: Seq<LightLayerKey>) -> Seq<bool> {
    Seq::new(KEYS as nat, |i: int| keys[i].state)
}

/// Shared level `s` of a channel.
pub open spec fn slot_hardware(pwm: [u8; 7], brightness: [u8; 4], s: int) -> HardwareColor {
    HardwareColor { brightness: brightness.nibble_at(s as nat), pwm: pwm@[s] }
}

/// The color that level number `number` shows: 0 is black, `n` is shared
/// level `n - 1`.
pub open spec fn number_color(pwm: [u8; 7], brightness: [u8; 4], number: int) -> u8 {
    if number == 0 {
        0
    } else {
        spec_to_color(slot_hardware(pwm, brightness, number - 1))
    }
}

/// A channel can be decoded: every key's number names one of the seven levels
/// or none, and every level lies inside the color table.
pub open spec fn channel_valid(numbers: [u8; 60], pwm: [u8; 7], brightness: [u8; 4]) -> bool {
    &&& forall|i: nat| i < KEYS ==> #[trigger] numbers.nibble_at(i) <= SLOTS
    &&& forall|s: int| 0 <= s < SLOTS ==> level_of(#[trigger] slot_hardware(pwm, brightness, s)) < 1009
}

/// A channel holds a clustering: level `s` is mean `s` as hardware color, an
/// active key has number one past its slot, and an inactive key number 0.
pub open spec fn channel_holds(
    numbers: [u8; 60],
    pwm: [u8; 7],
    brightness: [u8; 4],
    clustering: (Seq<u8>, Seq<u8>),
    active: Seq<bool>,
) -> bool {
    &&& forall|s: int|
        0 <= s < SLOTS ==> #[trigger] slot_hardware(pwm, brightness, s) == spec_from_color(
            clustering.0[s],
        )
    &&& forall|i: nat|
        i < KEYS ==> #[trigger] numbers.nibble_at(i) == if active[i as int] {
            (clustering.1[i as int] + 1) as u8
        } else {
            0u8
        }
}

/// The wire form of a light layer for 120 keys: a state bit per key and, per
/// channel, a level number per key (a nibble) and seven shared levels.
#[derive(Clone, Copy, Debug)]
pub struct LightLayer {
    pub states: [u8; 15],
    pub numbers_red: [u8; 60],
    pub numbers_green: [u8; 60],
    pub numbers_blue: [u8; 60],
    pub colors_red_pwm: [u8; 7],
    pub colors_green_pwm: [u8; 7],
    pub colors_blue_pwm: [u8; 7],
    pub colors_red_brightness: [u8; 4],
    pub colors_green_brightness: [u8; 4],
    pub colors_blue_brightness: [u8; 4],
}

impl LightLayer {
    pub open spec fn numbers(&self, which: int) -> [u8; 60] {
        if which == 0 {
            self.numbers_red
        } else if which == 1 {
            self.numbers_green
        } else {
            self.numbers_blue
        }
    }

    pub open spec fn pwm(&self, which: int) -> [u8; 7] {
        if which == 0 {
            self.colors_red_pwm
        } else if which == 1 {
            self.colors_green_pwm
        } else {
            self.colors_blue_pwm
        }
    }

    pub open spec fn brightness(&self, which: int) -> [u8; 4] {
        if which == 0 {
            self.colors_red_brightness
        } else if which == 1 {
            self.colors_green_brightness
        } else {
            self.colors_blue_brightness
        }
    }

    pub open spec fn state_bits(&self) -> [u8; 15] {
        self.states
    }

    /// Every channel can be decoded.
    pub open spec fn wf(&self) -> bool {
        forall|c: int|
            0 <= c < 3 ==> channel_valid(
                #[trigger] self.numbers(c),
                self.pwm(c),
                self.brightness(c),
            )
    }

    /// The layer is the encoding of `keys`: each key's state, and each channel
    /// clustered as [`quantize`] does it.
    pub open spec fn holds(&self, keys: Seq<LightLayerKey>) -> bool {
        &&& forall|i: nat| i < KEYS ==> #[trigger] self.state_bits().bit_at(i) == keys[i as int].state
        &&& forall|c: int|
            0 <= c < 3 ==> channel_holds(
                #[trigger] self.numbers(c),
                self.pwm(c),
                self.brightness(c),
                quantize(channel(keys, c), states(keys)),
                states(keys),
            )
    }

    /// Color of key `i` in channel `c`, as decoded.
    pub open spec fn key_color(&self, c: int, i: int) -> u8 {
        number_color(self.pwm(c), self.brightness(c), self.numbers(c).nibble_at(i as nat) as int)
    }

    /// Key `i` as decoded.
    pub open spec fn decoded(&self, i: int) -> LightLayerKey {
        LightLayerKey {
            red: self.key_color(0, i),
            green: self.key_color(1, i),
            blue: self.key_color(2, i),
            state: self.state_bits().bit_at(i as nat),
        }
    }
}

/// The clustering of a channel gives seven means, and each key a slot below
/// seven when active and [`UNASSIGNED`] when not.
pub open spec fn clustering_shaped(clustering: (Seq<u8>, Seq<u8>), active: Seq<bool>) -> bool {
    &&& clustering.0.len() == SLOTS
    &&& clustering.1.len() == KEYS
    &&& forall|i: int|
        0 <= i < KEYS ==> if active[i] {
            #[trigger] clustering.1[i] < SLOTS
        } else {
            clustering.1[i] == UNASSIGNED
        }
}

proof fn lemma_iterate_shaped(
    values: Seq<u8>,
    active: Seq<bool>,
    means: Seq<u8>,
    cluster: Seq<u8>,
    fuel: nat,
)
    requires
        values.len() == KEYS,
        active.len() == KEYS,
        means.len() == SLOTS,
        cluster.len() == KEYS,
        forall|i: int| 0 <= i < KEYS && !active[i] ==> cluster[i] == UNASSIGNED,
    ensures
        clustering_shaped(iterate(values, active, means, cluster, fuel), active),
    decreases fuel,
{
    let next = assign(values, active, means, cluster);
    assert forall|i: int| 0 <= i < KEYS && active[i] implies next[i] < SLOTS by {
        lemma_nearest_exists(values[i], means);
    }
    if !(next == cluster || fuel == 0) {
        lemma_iterate_shaped(values, active, update(values, active, next, means), next, (fuel - 1) as nat);
    }
}

proof fn lemma_quantize_shaped(values: Seq<u8>, active: Seq<bool>)
    requires
        values.len() == KEYS,
        active.len() == KEYS,
    ensures
        clustering_shaped(quantize(values, active), active),
{
    lemma_iterate_shaped(
        values,
        active,
        initial_means(values, active),
        Seq::new(values.len(), |i: int| UNASSIGNED),
        crate::ryosmkfx::quantizer::MAX_PASSES as nat,
    );
}

/// A channel that holds a well-shaped clustering can be decoded.
proof fn lemma_holds_valid(
    numbers: [u8; 60],
    pwm: [u8; 7],
    brightness: [u8; 4],
    clustering: (Seq<u8>, Seq<u8>),
    active: Seq<bool>,
)
    requires
        channel_holds(numbers, pwm, brightness, clustering, active),
        clustering_shaped(clustering, active),
    ensures
        channel_valid(numbers, pwm, brightness),
{
    assert forall|s: int| 0 <= s < SLOTS implies level_of(
        #[trigger] slot_hardware(pwm, brightness, s),
    ) < 1009 by {
        lemma_color_round_trip(clustering.0[s]);
    }
    assert forall|i: nat| i < KEYS implies #[trigger] numbers.nibble_at(i) <= SLOTS by {
        assert(clustering_shaped(clustering, active));
        if active[i as int] {
            assert(clustering.1[i as int] < SLOTS);
        }
    }
}

/// Every active key decodes, in each channel, to the mean of its slot, and
/// that slot is a nearest one among the final means: with more than seven
/// colors a key shows the nearest shared level.
pub proof fn lemma_decodes_to_nearest_mean(layer: LightLayer, keys: Seq<LightLayerKey>, c: int, i: int)
    requires
        layer.holds(keys),
        0 <= c < 3,
        0 <= i < KEYS,
        keys[i].state,
    ensures
        layer.key_color(c, i) == quantize(channel(keys, c), states(keys)).0[quantize(
            channel(keys, c),
            states(keys),
        ).1[i] as int],
        is_nearest(
            channel(keys, c)[i],
            quantize(channel(keys, c), states(keys)).0,
            quantize(channel(keys, c), states(keys)).1[i] as int,
        ),
{
    let values = channel(keys, c);
    let active = states(keys);
    let q = quantize(values, active);
    lemma_quantize_shaped(values, active);
    lemma_quantize_nearest(values, active);
    assert(channel_holds(layer.numbers(c), layer.pwm(c), layer.brightness(c), q, active));
    assert(active[i]);
    let s = q.1[i] as int;
    assert(layer.numbers(c).nibble_at(i as nat) == (q.1[i] + 1) as u8);
    assert(slot_hardware(layer.pwm(c), layer.brightness(c), s) == spec_from_color(q.0[s]));
    lemma_color_round_trip(q.0[s]);
}

proof fn lemma_channel_exact(layer: LightLayer, keys: Seq<LightLayerKey>, c: int, i: int)
    requires
        layer.holds(keys),
        0 <= c < 3,
        0 <= i < KEYS,
        keys[i].state,
        distinct_values(channel(keys, c), states(keys)).len() <= SLOTS,
    ensures
        layer.key_color(c, i) == channel(keys, c)[i],
{
    lemma_decodes_to_nearest_mean(layer, keys, c, i);
    lemma_few_values_exact(channel(keys, c), states(keys));
    assert(states(keys)[i]);
}

/// With at most seven distinct colors among the active keys in each channel,
/// decoding an encoding gives back every key's state and every active key's
/// colors exactly.
pub proof fn lemma_few_colors_round_trip(layer: LightLayer, keys: Seq<LightLayerKey>)
    requires
        layer.holds(keys),
        forall|c: int|
            0 <= c < 3 ==> #[trigger] distinct_values(channel(keys, c), states(keys)).len() <= SLOTS,
    ensures
        forall|i: int| 0 <= i < KEYS ==> (#[trigger] layer.decoded(i)).state == keys[i].state,
        forall|i: int| 0 <= i < KEYS && keys[i].state ==> #[trigger] layer.decoded(i) == keys[i],
{
    assert forall|i: int| 0 <= i < KEYS implies (#[trigger] layer.decoded(i)).state == keys[i].state by {
        assert(layer.state_bits().bit_at(i as nat) == keys[i].state);
    }
    assert forall|i: int| 0 <= i < KEYS && keys[i].state implies #[trigger] layer.decoded(i)
        == keys[i] by {
        assert(layer.state_bits().bit_at(i as nat) == keys[i].state);
        assert(distinct_values(channel(keys, 0), states(keys)).len() <= SLOTS);
        assert(distinct_values(channel(keys, 1), states(keys)).len() <= SLOTS);
        assert(distinct_values(channel(keys, 2), states(keys)).len() <= SLOTS);
        lemma_channel_exact(layer, keys, 0, i);
        lemma_channel_exact(layer, keys, 1, i);
        lemma_channel_exact(layer, keys, 2, i);
    }
}

/// Stores the seven means of a channel as hardware colors.
fn store_means(pwm: &mut [u8; 7], brightness: &mut [u8; 4], means: &[u8; 7])
    ensures
        forall|s: int|
            0 <= s < SLOTS ==> #[trigger] slot_hardware(*final(pwm), *final(brightness), s)
                == spec_from_color(means@[s]),
{
    let mut i: usize = 0;
    while i < SLOTS
        invariant
            i <= SLOTS,
            forall|s: int|
                0 <= s < i ==> #[trigger] slot_hardware(*pwm, *brightness, s) == spec_from_color(
                    means@[s],
                ),
        decreases SLOTS - i,
    {
        let hardware = HardwareColor::from_color(means[i]);
        proof {
            lemma_color_round_trip(means[i as int]);
        }
        let ghost pwm_before = *pwm;
        let ghost brightness_before = *brightness;
        pwm[i] = hardware.pwm;
        brightness.set_nibble(i, hardware.brightness);
        assert forall|s: int| 0 <= s < i implies #[trigger] slot_hardware(*pwm, *brightness, s)
            == slot_hardware(pwm_before, brightness_before, s) by {
            assert(brightness.nibble_at(s as nat) == brightness_before.nibble_at(s as nat));
        }
        assert(slot_hardware(*pwm, *brightness, i as int) == hardware);
        i += 1;
    }
}

/// Stores each key's level number: one past its slot when active, else 0.
fn store_numbers(numbers: &mut [u8; 60], cluster: &[u8; 120], active: &[bool; 120])
    requires
        forall|i: int| 0 <= i < KEYS && active@[i] ==> cluster@[i] < SLOTS,
    ensures
        forall|i: nat|
            i < KEYS ==> #[trigger] final(numbers).nibble_at(i) == if active@[i as int] {
                (cluster@[i as int] + 1) as u8
            } else {
                0u8
            },
{
    let mut i: usize = 0;
    while i < KEYS
        invariant
            i <= KEYS,
            forall|i: int| 0 <= i < KEYS && active@[i] ==> cluster@[i] < SLOTS,
            forall|k: nat|
                k < i ==> #[trigger] numbers.nibble_at(k) == if active@[k as int] {
                    (cluster@[k as int] + 1) as u8
                } else {
                    0u8
                },
        decreases KEYS - i,
    {
        let number: u8 = if active[i] {
            cluster[i] + 1
        } else {
            0
        };
        numbers.set_nibble(i, number);
        i += 1;
    }
}

/// Stores each key's state bit.
fn store_states(states: &mut [u8; 15], active: &[bool; 120])
    ensures
        forall|i: nat| i < KEYS ==> #[trigger] final(states).bit_at(i) == active@[i as int],
{
    let mut i: usize = 0;
    while i < KEYS
        invariant
            i <= KEYS,
            forall|k: nat| k < i ==> #[trigger] states.bit_at(k) == active@[k as int],
        decreases KEYS - i,
    {
        states.set_bit(i, active[i]);
        i += 1;
    }
}

/// Whether one channel can be decoded.
fn channel_decodable(numbers: &[u8; 60], pwm: &[u8; 7], brightness: &[u8; 4]) -> (r: bool)
    ensures
        r == channel_valid(*numbers, *pwm, *brightness),
{
    let mut i: usize = 0;
    while i < KEYS
        invariant
            i <= KEYS,
            forall|k: nat| k < i ==> #[trigger] numbers.nibble_at(k) <= SLOTS,
        decreases KEYS - i,
    {
        if numbers.get_nibble(i) as usize > SLOTS {
            return false;
        }
        i += 1;
    }
    let mut s: usize = 0;
    while s < SLOTS
        invariant
            s <= SLOTS,
            forall|k: nat| k < KEYS ==> #[trigger] numbers.nibble_at(k) <= SLOTS,
            forall|t: int| 0 <= t < s ==> level_of(#[trigger] slot_hardware(*pwm, *brightness, t)) < 1009,
        decreases SLOTS - s,
    {
        let p = pwm[s] as usize;
        let b = brightness.get_nibble(s) as usize;
        assert(p * (b + 1) <= 255 * 16) by (nonlinear_arith)
            requires
                p <= 255,
                b < 16,
        ;
        let level: usize = p * (b + 1);
        if level >= 1009 {
            assert(level_of(slot_hardware(*pwm, *brightness, s as int)) >= 1009);
            return false;
        }
        s += 1;
    }
    true
}

/// The color that a level number shows in one channel.
fn number_to_color(pwm: &[u8; 7], brightness: &[u8; 4], number: usize) -> (r: u8)
    requires
        number <= SLOTS,
        number > 0 ==> level_of(slot_hardware(*pwm, *brightness, number - 1)) < 1009,
    ensures
        r == number_color(*pwm, *brightness, number as int),
{
    if number == 0 {
        return 0;
    }
    HardwareColor { brightness: brightness.get_nibble(number - 1), pwm: pwm[number - 1] }.to_color()
}

impl LightLayer {
    /// Encodes `data`: each channel of the first 120 keys is clustered to at
    /// most seven shared levels, and each key's state stored as one bit.
    pub fn set_data(&mut self, data: &LightLayerData)
        ensures
            final(self).holds(data@),
            final(self).wf(),
    {
        let mut values_red = [0u8; 120];
        let mut values_green = [0u8; 120];
        let mut values_blue = [0u8; 120];
        let mut active = [false; 120];
        let mut i: usize = 0;
        while i < KEYS
            invariant
                i <= KEYS,
                forall|k: int|
                    0 <= k < i ==> values_red@[k] == data@[k].red && values_green@[k] == data@[k].green
                        && values_blue@[k] == data@[k].blue && active@[k] == data@[k].state,
            decreases KEYS - i,
        {
            let key = data.keys[i];
            values_red[i] = key.red;
            values_green[i] = key.green;
            values_blue[i] = key.blue;
            active[i] = key.state;
            i += 1;
        }
        assert(values_red@ =~= channel(data@, 0));
        assert(values_green@ =~= channel(data@, 1));
        assert(values_blue@ =~= channel(data@, 2));
        assert(active@ =~= states(data@));

        let (means_red, cluster_red) = quantize_channel(&values_red, &active);
        let (means_green, cluster_green) = quantize_channel(&values_green, &active);
        let (means_blue, cluster_blue) = quantize_channel(&values_blue, &active);
        proof {
            lemma_quantize_shaped(values_red@, active@);
            lemma_quantize_shaped(values_green@, active@);
            lemma_quantize_shaped(values_blue@, active@);
        }

        store_means(&mut self.colors_red_pwm, &mut self.colors_red_brightness, &means_red);
        store_means(&mut self.colors_green_pwm, &mut self.colors_green_brightness, &means_green);
        store_means(&mut self.colors_blue_pwm, &mut self.colors_blue_brightness, &means_blue);
        store_numbers(&mut self.numbers_red, &cluster_red, &active);
        store_numbers(&mut self.numbers_green, &cluster_green, &active);
        store_numbers(&mut self.numbers_blue, &cluster_blue, &active);
        store_states(&mut self.states, &active);

        proof {
            assert forall|c: int| 0 <= c < 3 implies channel_holds(
                #[trigger] self.numbers(c),
                self.pwm(c),
                self.brightness(c),
                quantize(channel(data@, c), states(data@)),
                states(data@),
            ) && channel_valid(self.numbers(c), self.pwm(c), self.brightness(c)) by {
                lemma_holds_valid(
                    self.numbers(c),
                    self.pwm(c),
                    self.brightness(c),
                    quantize(channel(data@, c), states(data@)),
                    states(data@),
                );
            }
        }
    }

    /// Decodes the layer: each of the first 120 keys gets its state and the
    /// colors its level numbers name; the other keys stay off and black.
    pub fn get_data(&self) -> (r: LightLayerData)
        requires
            self.wf(),
        ensures
            forall|i: int| 0 <= i < KEYS ==> #[trigger] r@[i] == self.decoded(i),
            forall|i: int| KEYS <= i < 256 ==> #[trigger] r@[i] == blank_key(),
            r@.len() == 256,
    {
        let mut data = LightLayerData::default();
        proof {
            assert(channel_valid(self.numbers(0), self.pwm(0), self.brightness(0)));
            assert(channel_valid(self.numbers(1), self.pwm(1), self.brightness(1)));
            assert(channel_valid(self.numbers(2), self.pwm(2), self.brightness(2)));
        }
        let mut i: usize = 0;
        while i < KEYS
            invariant
                i <= KEYS,
                self.wf(),
                channel_valid(self.numbers(0), self.pwm(0), self.brightness(0)),
                channel_valid(self.numbers(1), self.pwm(1), self.brightness(1)),
                channel_valid(self.numbers(2), self.pwm(2), self.brightness(2)),
                forall|k: int| 0 <= k < i ==> #[trigger] data@[k] == self.decoded(k),
                forall|k: int| i <= k < 256 ==> #[trigger] data@[k] == blank_key(),
            decreases KEYS - i,
        {
            let red = self.numbers_red.get_nibble(i) as usize;
            let green = self.numbers_green.get_nibble(i) as usize;
            let blue = self.numbers_blue.get_nibble(i) as usize;
            assert(self.numbers(0).nibble_at(i as nat) <= SLOTS);
            assert(self.numbers(1).nibble_at(i as nat) <= SLOTS);
            assert(self.numbers(2).nibble_at(i as nat) <= SLOTS);
            let key = LightLayerKey {
                state: self.states.get_bit(i),
                red: number_to_color(&self.colors_red_pwm, &self.colors_red_brightness, red),
                green: number_to_color(&self.colors_green_pwm, &self.colors_green_brightness, green),
                blue: number_to_color(&self.colors_blue_pwm, &self.colors_blue_brightness, blue),
            };
            let ghost before = data@;
            data.keys[i] = key;
            assert(data@ =~= before.update(i as int, key));
            i += 1;
        }
        data
    }

    /// Whether [`LightLayer::get_data`] can decode this layer: every level
    /// number names one of the seven levels or none, and every level lies
    /// inside the color table. A layer read from the device may not.
    pub fn is_decodable(&self) -> (r: bool)
        ensures
            r == self.wf(),
    {
        let red = channel_decodable(&self.numbers_red, &self.colors_red_pwm, &self.colors_red_brightness);
        let green = channel_decodable(
            &self.numbers_green,
            &self.colors_green_pwm,
            &self.colors_green_brightness,
        );
        let blue = channel_decodable(&self.numbers_blue, &self.colors_blue_pwm, &self.colors_blue_brightness);
        proof {
            if red && green && blue {
                assert forall|c: int| 0 <= c < 3 implies channel_valid(
                    #[trigger] self.numbers(c),
                    self.pwm(c),
                    self.brightness(c),
                ) by {
                    if c == 0 {
                    } else if c == 1 {
                    } else {
                    }
                }
            } else if !red {
                assert(!channel_valid(self.numbers(0), self.pwm(0), self.brightness(0)));
            } else if !green {
                assert(!channel_valid(self.numbers(1), self.pwm(1), self.brightness(1)));
            } else {
                assert(!channel_valid(self.numbers(2), self.pwm(2), self.brightness(2)));
            }
        }
        red && green && blue
    }

    /// The encoding of `data`.
    pub fn from_data(data: &LightLayerData) -> (r: Self)
        ensures
            r.holds(data@),
            r.wf(),
    {
        let mut ret = Self::default();
        ret.set_data(data);
        ret
    }
}

impl Default for LightLayer {
    fn default() -> (r: Self)
        ensures
            r.spec_bytes() == Seq::new(228, |i: int| 0u8),
    {
        let r = LightLayer {
            states: [0u8; 15],
            numbers_red: [0u8; 60],
            numbers_green: [0u8; 60],
            numbers_blue: [0u8; 60],
            colors_red_pwm: [0u8; 7],
            colors_green_pwm: [0u8; 7],
            colors_blue_pwm: [0u8; 7],
            colors_red_brightness: [0u8; 4],
            colors_green_brightness: [0u8; 4],
            colors_blue_brightness: [0u8; 4],
        };
        assert(r.spec_bytes() =~= Seq::new(228, |i: int| 0u8));
        r
    }
}

impl Default for LightLayerData {
    fn default() -> (r: Self)
        ensures
            forall|i: int| 0 <= i < 256 ==> #[trigger] r@[i] == blank_key(),
            r@.len() == 256,
    {
        LightLayerData { keys: [LightLayerKey { red: 0, green: 0, blue: 0, state: false }; 256] }
    }
}

impl LightLayerData {
    /// Switches every key on or off; colors stay.
    pub fn set_all_states(&mut self, state: bool)
        ensures
            final(self)@.len() == 256,
            forall|i: int|
                0 <= i < 256 ==> #[trigger] final(self)@[i] == (LightLayerKey { state, ..old(self)@[i] }),
    {
        let mut i: usize = 0;
        while i < 256
            invariant
                i <= 256,
                forall|k: int| 0 <= k < i ==> #[trigger] self@[k] == (LightLayerKey { state, ..old(self)@[k] }),
                forall|k: int| i <= k < 256 ==> #[trigger] self@[k] == old(self)@[k],
            decreases 256 - i,
        {
            let ghost before = self@;
            self.keys[i].state = state;
            assert(self@ =~= before.update(i as int, LightLayerKey { state, ..before[i as int] }));
            i += 1;
        }
    }

    /// The key at physical light index `light`.
    pub fn get_light(&self, light: usize) -> (r: LightLayerKey)
        requires
            light < 256,
        ensures
            r == self@[light as int],
    {
        self.keys[light]
    }

    /// Replaces the key at physical light index `light`.
    pub fn set_light(&mut self, light: usize, key: LightLayerKey)
        requires
            light < 256,
        ensures
            final(self)@ == old(self)@.update(light as int, key),
    {
        let ghost before = self@;
        self.keys[light] = key;
        assert(self@ =~= before.update(light as int, key));
    }

    /// The state of the key with SDK index `sdk`.
    pub fn get_key_state(&self, sdk: u8) -> (r: bool)
        requires
            sdk < 120,
        ensures
            r == self@[spec_sdk_index_to_light_index(sdk) as int].state,
    {
        self.keys[sdk_index_to_light_index(sdk) as usize].state
    }

    /// Sets the state of the key with SDK index `sdk`; every other key and field
    /// stays.
    pub fn set_key_state(&mut self, sdk: u8, state: bool)
        requires
            sdk < 120,
        ensures
            final(self)@ == old(self)@.update(
                spec_sdk_index_to_light_index(sdk) as int,
                LightLayerKey { state, ..old(self)@[spec_sdk_index_to_light_index(sdk) as int] },
            ),
    {
        let light = sdk_index_to_light_index(sdk) as usize;
        let ghost before = self@;
        self.keys[light].state = state;
        assert(self@ =~= before.update(light as int, LightLayerKey { state, ..before[light as int] }));
    }

    /// The red of the key with SDK index `sdk`.
    pub fn get_key_red(&self, sdk: u8) -> (r: u8)
        requires
            sdk < 120,
        ensures
            r == self@[spec_sdk_index_to_light_index(sdk) as int].red,
    {
        self.keys[sdk_index_to_light_index(sdk) as usize].red
    }

    /// Sets the red of the key with SDK index `sdk`; every other key and field
    /// stays.
    pub fn set_key_red(&mut self, sdk: u8, red: u8)
        requires
            sdk < 120,
        ensures
            final(self)@ == old(self)@.update(
                spec_sdk_index_to_light_index(sdk) as int,
                LightLayerKey { red, ..old(self)@[spec_sdk_index_to_light_index(sdk) as int] },
            ),
    {
        let light = sdk_index_to_light_index(sdk) as usize;
        let ghost before = self@;
        self.keys[light].red = red;
        assert(self@ =~= before.update(light as int, LightLayerKey { red, ..before[light as int] }));
    }

    /// The green of the key with SDK index `sdk`.
    pub fn get_key_green(&self, sdk: u8) -> (r: u8)
        requires
            sdk < 120,
        ensures
            r == self@[spec_sdk_index_to_light_index(sdk) as int].green,
    {
        self.keys[sdk_index_to_light_index(sdk) as usize].green
    }

    /// Sets the green of the key with SDK index `sdk`; every other key and field
    /// stays.
    pub fn set_key_green(&mut self, sdk: u8, green: u8)
        requires
            sdk < 120,
        ensures
            final(self)@ == old(self)@.update(
                spec_sdk_index_to_light_index(sdk) as int,
                LightLayerKey { green, ..old(self)@[spec_sdk_index_to_light_index(sdk) as int] },
            ),
    {
        let light = sdk_index_to_light_index(sdk) as usize;
        let ghost before = self@;
        self.keys[light].green = green;
        assert(self@ =~= before.update(light as int, LightLayerKey { green, ..before[light as int] }));
    }

    /// The blue of the key with SDK index `sdk`.
    pub fn get_key_blue(&self, sdk: u8) -> (r: u8)
        requires
            sdk < 120,
        ensures
            r == self@[spec_sdk_index_to_light_index(sdk) as int].blue,
    {
        self.keys[sdk_index_to_light_index(sdk) as usize].blue
    }

    /// Sets the blue of the key with SDK index `sdk`; every other key and field
    /// stays.
    pub fn set_key_blue(&mut self, sdk: u8, blue: u8)
        requires
            sdk < 120,
        ensures
            final(self)@ == old(self)@.update(
                spec_sdk_index_to_light_index(sdk) as int,
                LightLayerKey { blue, ..old(self)@[spec_sdk_index_to_light_index(sdk) as int] },
            ),
    {
        let light = sdk_index_to_light_index(sdk) as usize;
        let ghost before = self@;
        self.keys[light].blue = blue;
        assert(self@ =~= before.update(light as int, LightLayerKey { blue, ..before[light as int] }));
    }
}

impl LightLayer {
    /// The layer's bytes on the wire.
    pub open spec fn spec_bytes(&self) -> Seq<u8> {
        self.states@ + self.numbers_red@ + self.numbers_green@ + self.numbers_blue@ + self.colors_red_pwm@ + self.colors_green_pwm@ + self.colors_blue_pwm@ + self.colors_red_brightness@ + self.colors_green_brightness@ + self.colors_blue_brightness@
    }

    pub fn to_bytes(&self) -> (r: Vec<u8>)
        ensures
            r@ == self.spec_bytes(),
            r@.len() == 228,
    {
        let mut v: Vec<u8> = Vec::new();
        append_bytes(&mut v, &self.states);
        append_bytes(&mut v, &self.numbers_red);
        append_bytes(&mut v, &self.numbers_green);
        append_bytes(&mut v, &self.numbers_blue);
        append_bytes(&mut v, &self.colors_red_pwm);
        append_bytes(&mut v, &self.colors_green_pwm);
        append_bytes(&mut v, &self.colors_blue_pwm);
        append_bytes(&mut v, &self.colors_red_brightness);
        append_bytes(&mut v, &self.colors_green_brightness);
        append_bytes(&mut v, &self.colors_blue_brightness);
        v
    }

    /// The layer that 228 bytes hold.
    pub fn from_bytes(bytes: &[u8]) -> (r: Self)
        requires
            bytes@.len() == 228,
        ensures
            r.spec_bytes() == bytes@,
    {
        let states: [u8; 15] = take_bytes(bytes, 0);
        let numbers_red: [u8; 60] = take_bytes(bytes, 15);
        let numbers_green: [u8; 60] = take_bytes(bytes, 75);
        let numbers_blue: [u8; 60] = take_bytes(bytes, 135);
        let colors_red_pwm: [u8; 7] = take_bytes(bytes, 195);
        let colors_green_pwm: [u8; 7] = take_bytes(bytes, 202);
        let colors_blue_pwm: [u8; 7] = take_bytes(bytes, 209);
        let colors_red_brightness: [u8; 4] = take_bytes(bytes, 216);
        let colors_green_brightness: [u8; 4] = take_bytes(bytes, 220);
        let colors_blue_brightness: [u8; 4] = take_bytes(bytes, 224);
        let r = LightLayer { states, numbers_red, numbers_green, numbers_blue, colors_red_pwm, colors_green_pwm, colors_blue_pwm, colors_red_brightness, colors_green_brightness, colors_blue_brightness };
        proof {
            assert(r.states@ =~= bytes@.subrange(0, 15));
            assert(r.numbers_red@ =~= bytes@.subrange(15, 75));
            assert(r.numbers_green@ =~= bytes@.subrange(75, 135));
            assert(r.numbers_blue@ =~= bytes@.subrange(135, 195));
            assert(r.colors_red_pwm@ =~= bytes@.subrange(195, 202));
            assert(r.colors_green_pwm@ =~= bytes@.subrange(202, 209));
            assert(r.colors_blue_pwm@ =~= bytes@.subrange(209, 216));
            assert(r.colors_red_brightness@ =~= bytes@.subrange(216, 220));
            assert(r.colors_green_brightness@ =~= bytes@.subrange(220, 224));
            assert(r.colors_blue_brightness@ =~= bytes@.subrange(224, 228));
            assert(r.spec_bytes() =~= bytes@);
        }
        r
    }
}

/// The report that carries a custom light layer.
#[derive(Clone, Copy, Debug)]
pub struct CustomLights {
    pub light_layer: LightLayer,
}

impl CustomLights {
    pub fn new(light_layer: LightLayer) -> (r: Self)
        ensures
            r.light_layer == light_layer,
    {
        Self { light_layer }
    }
}

impl Report for CustomLights {
    open spec fn layout() -> ReportLayout {
        ReportLayout { report_id: 0x18, size_field: SizeField::Byte, payload_len: 228, checksum: true, verify_on_read: true }
    }

    fn report_layout() -> (r: ReportLayout) {
        ReportLayout { report_id: 0x18, size_field: SizeField::Byte, payload_len: 228, checksum: true, verify_on_read: true }
    }
}

impl ReportWrite for CustomLights {
    open spec fn spec_payload(&self) -> Seq<u8> {
        self.light_layer.spec_bytes()
    }

    fn payload(&self) -> (r: Vec<u8>) {
        self.light_layer.to_bytes()
    }
}

impl ReportRead for CustomLights {
    open spec fn spec_parse(p: Seq<u8>) -> Option<Self> {
        Some(CustomLights { light_layer: LightLayer::spec_from_bytes(p) })
    }

    fn parse(payload: &[u8]) -> (r: Option<Self>) {
        let light_layer = LightLayer::from_bytes(payload);
        proof {
            LightLayer::lemma_bytes_determine(light_layer, LightLayer::spec_from_bytes(payload@));
        }
        Some(CustomLights { light_layer })
    }
}

impl LightLayer {
    /// The layer that bytes hold.
    pub open spec fn spec_from_bytes(bytes: Seq<u8>) -> LightLayer {
        choose|l: LightLayer| l.spec_bytes() == bytes
    }

    proof fn lemma_bytes_determine(a: LightLayer, b: LightLayer)
        requires
            b == LightLayer::spec_from_bytes(a.spec_bytes()),
        ensures
            b == a,
    {
        assert(b.spec_bytes() == a.spec_bytes());
        assert(b.states@ =~= a.states@) by { assert(b.spec_bytes().subrange(0, 15) =~= b.states@); assert(a.spec_bytes().subrange(0, 15) =~= a.states@); }
        assert(b.numbers_red@ =~= a.numbers_red@) by { assert(b.spec_bytes().subrange(15, 75) =~= b.numbers_red@); assert(a.spec_bytes().subrange(15, 75) =~= a.numbers_red@); }
        assert(b.numbers_green@ =~= a.numbers_green@) by { assert(b.spec_bytes().subrange(75, 135) =~= b.numbers_green@); assert(a.spec_bytes().subrange(75, 135) =~= a.numbers_green@); }
        assert(b.numbers_blue@ =~= a.numbers_blue@) by { assert(b.spec_bytes().subrange(135, 195) =~= b.numbers_blue@); assert(a.spec_bytes().subrange(135, 195) =~= a.numbers_blue@); }
        assert(b.colors_red_pwm@ =~= a.colors_red_pwm@) by { assert(b.spec_bytes().subrange(195, 202) =~= b.colors_red_pwm@); assert(a.spec_bytes().subrange(195, 202) =~= a.colors_red_pwm@); }
        assert(b.colors_green_pwm@ =~= a.colors_green_pwm@) by { assert(b.spec_bytes().subrange(202, 209) =~= b.colors_green_pwm@); assert(a.spec_bytes().subrange(202, 209) =~= a.colors_green_pwm@); }
        assert(b.colors_blue_pwm@ =~= a.colors_blue_pwm@) by { assert(b.spec_bytes().subrange(209, 216) =~= b.colors_blue_pwm@); assert(a.spec_bytes().subrange(209, 216) =~= a.colors_blue_pwm@); }
        assert(b.colors_red_brightness@ =~= a.colors_red_brightness@) by { assert(b.spec_bytes().subrange(216, 220) =~= b.colors_red_brightness@); assert(a.spec_bytes().subrange(216, 220) =~= a.colors_red_brightness@); }
        assert(b.colors_green_brightness@ =~= a.colors_green_brightness@) by { assert(b.spec_bytes().subrange(220, 224) =~= b.colors_green_brightness@); assert(a.spec_bytes().subrange(220, 224) =~= a.colors_green_brightness@); }
        assert(b.colors_blue_brightness@ =~= a.colors_blue_brightness@) by { assert(b.spec_bytes().subrange(224, 228) =~= b.colors_blue_brightness@); assert(a.spec_bytes().subrange(224, 228) =~= a.colors_blue_brightness@); }
        assert(b.states =~= a.states);
        assert(b.numbers_red =~= a.numbers_red);
        assert(b.numbers_green =~= a.numbers_green);
        assert(b.numbers_blue =~= a.numbers_blue);
        assert(b.colors_red_pwm =~= a.colors_red_pwm);
        assert(b.colors_green_pwm =~= a.colors_green_pwm);
        assert(b.colors_blue_pwm =~= a.colors_blue_pwm);
        assert(b.colors_red_brightness =~= a.colors_red_brightness);
        assert(b.colors_green_brightness =~= a.colors_green_brightness);
        assert(b.colors_blue_brightness =~= a.colors_blue_brightness);
    }
}

} // verus!
