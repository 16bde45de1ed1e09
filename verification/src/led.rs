//! Bit-exact codec between the raw 32-bit LED configuration register and
//! a structured per-LED and global configuration, together with the
//! round-trip law that the codec preserves every bit, the defined
//! twenty as fields and the rest as an opaque residue.

use vstd::prelude::*;

use crate::device::{CtrlDevice, RegType};
use crate::errors::CtrlError;

verus! {

/// Offset of the LED configuration register in the PLA space.
pub const PLA_LED_SELECT: u16 = 0xdd90;

/// Trigger bit: light the LED when a 10 Mbps link is up.
pub const LED_SEL_LINK_10: u32 = 1;
/// Trigger bit: light the LED when a 100 Mbps link is up.
pub const LED_SEL_LINK_100: u32 = 2;
/// Trigger bit: light the LED when a 1000 Mbps link is up.
pub const LED_SEL_LINK_1000: u32 = 4;
/// Trigger bit: blink the LED on activity.
pub const LED_SEL_ACTIVITY: u32 = 8;

/// Mask covering the twenty defined bits of the LED register.
pub const LED_VALUE_MASK: u32 = 0xf_ffff;

/// One LED slot: four trigger flags and the polarity flag.
#[derive(Debug, Clone, Copy, PartialEq, Eq, Structural)]
pub struct LedConfig {
    pub link10: bool,
    pub link100: bool,
    pub link1000: bool,
    pub activity: bool,
    pub high_active: bool,
}

/// The fields of LED slot `i` as read from the raw register value:
/// trigger flags at bit offset `4 * i`, polarity at bit `12 + i`.
pub open spec fn spec_led_from_raw(v: u32, i: u32) -> LedConfig {
    LedConfig {
        link10: (v >> ((4 * i) as u32)) & LED_SEL_LINK_10 != 0,
        link100: (v >> ((4 * i) as u32)) & LED_SEL_LINK_100 != 0,
        link1000: (v >> ((4 * i) as u32)) & LED_SEL_LINK_1000 != 0,
        activity: (v >> ((4 * i) as u32)) & LED_SEL_ACTIVITY != 0,
        high_active: v & (1u32 << ((12 + i) as u32)) != 0,
    }
}

/// The contribution of LED slot `i` to the raw register value: the
/// inverse placement of `spec_led_from_raw`.
pub open spec fn spec_led_to_raw(c: LedConfig, i: u32) -> u32 {
    (((if c.link10 {
        LED_SEL_LINK_10
    } else {
        0u32
    }) | (if c.link100 {
        LED_SEL_LINK_100
    } else {
        0u32
    }) | (if c.link1000 {
        LED_SEL_LINK_1000
    } else {
        0u32
    }) | (if c.activity {
        LED_SEL_ACTIVITY
    } else {
        0u32
    })) << ((4 * i) as u32)) | (if c.high_active {
        1u32 << ((12 + i) as u32)
    } else {
        0u32
    })
}

impl LedConfig {
    /// Extracts the configuration of LED slot `index` from a raw
    /// register value.
    pub fn from_raw(value: u32, index: u8) -> (r: LedConfig)
        requires
            index < 3,
        ensures
            r == spec_led_from_raw(value, index as u32),
    {
        let led_select: u32 = value >> ((index as u32) * 4);
        LedConfig {
            link10: led_select & LED_SEL_LINK_10 != 0,
            link100: led_select & LED_SEL_LINK_100 != 0,
            link1000: led_select & LED_SEL_LINK_1000 != 0,
            activity: led_select & LED_SEL_ACTIVITY != 0,
            high_active: value & (1u32 << (12 + index as u32)) != 0,
        }
    }

    /// Packs this LED slot's flags into its position in the raw value.
    pub fn to_raw(&self, index: u8) -> (r: u32)
        requires
            index < 3,
        ensures
            r == spec_led_to_raw(*self, index as u32),
    {
        let triggers: u32 = (if self.link10 {
            LED_SEL_LINK_10
        } else {
            0u32
        }) | (if self.link100 {
            LED_SEL_LINK_100
        } else {
            0u32
        }) | (if self.link1000 {
            LED_SEL_LINK_1000
        } else {
            0u32
        }) | (if self.activity {
            LED_SEL_ACTIVITY
        } else {
            0u32
        });
        let polarity: u32 = if self.high_active {
            1u32 << (12 + index as u32)
        } else {
            0u32
        };
        (triggers << ((index as u32) * 4)) | polarity
    }
}

/// How fast the LED blinks, or that the rate follows the link speed.
#[derive(Debug, Clone, Copy, PartialEq, Eq, Structural)]
pub enum BlinkInterval {
    I240,
    I160,
    I80,
    ILink,
}

/// The 2-bit code of each blink interval.
pub open spec fn spec_interval_to_num(iv: BlinkInterval) -> u32 {
    match iv {
        BlinkInterval::I240 => 0u32,
        BlinkInterval::I160 => 1u32,
        BlinkInterval::I80 => 2u32,
        BlinkInterval::ILink => 3u32,
    }
}

/// The blink interval named by a 2-bit code.
pub open spec fn spec_interval_from_bits(bits: u32) -> BlinkInterval {
    if bits == 0 {
        BlinkInterval::I240
    } else if bits == 1 {
        BlinkInterval::I160
    } else if bits == 2 {
        BlinkInterval::I80
    } else {
        BlinkInterval::ILink
    }
}

impl BlinkInterval {
    /// Accepts exactly the numeric codes 0 through 3; anything else is
    /// rejected with `Parse`.
    pub fn from_num(num: u8) -> (r: Result<BlinkInterval, CtrlError>)
        ensures
            num <= 3 ==> r == Ok::<BlinkInterval, CtrlError>(
                spec_interval_from_bits(num as u32),
            ),
            r is Err <==> num > 3,
            r is Err ==> r == Err::<BlinkInterval, CtrlError>(CtrlError::Parse),
    {
        match num {
            0 => Ok(BlinkInterval::I240),
            1 => Ok(BlinkInterval::I160),
            2 => Ok(BlinkInterval::I80),
            3 => Ok(BlinkInterval::ILink),
            _ => Err(CtrlError::Parse),
        }
    }

    /// The interval encoded in bits 18 and 19 of a raw register value.
    pub fn from_raw(value: u32) -> (r: BlinkInterval)
        ensures
            r == spec_interval_from_bits((value >> 18) & 3),
    {
        let bits: u32 = (value >> 18) & 3;
        if bits == 0 {
            BlinkInterval::I240
        } else if bits == 1 {
            BlinkInterval::I160
        } else if bits == 2 {
            BlinkInterval::I80
        } else {
            BlinkInterval::ILink
        }
    }

    /// This interval's code shifted into bits 18 and 19.
    pub fn to_raw(self) -> (r: u32)
        ensures
            r == spec_interval_to_num(self) << 18u32,
    {
        let n: u32 = match self {
            BlinkInterval::I240 => 0u32,
            BlinkInterval::I160 => 1u32,
            BlinkInterval::I80 => 2u32,
            BlinkInterval::ILink => 3u32,
        };
        n << 18
    }
}

/// What fraction of each blink period the LED stays lit.
#[derive(Debug, Clone, Copy, PartialEq, Eq, Structural)]
pub enum BlinkDutyCycle {
    R12_5,
    R25,
    R50,
    R75,
}

/// The 2-bit code of each duty cycle.
pub open spec fn spec_duty_to_num(dc: BlinkDutyCycle) -> u32 {
    match dc {
        BlinkDutyCycle::R12_5 => 0u32,
        BlinkDutyCycle::R25 => 1u32,
        BlinkDutyCycle::R50 => 2u32,
        BlinkDutyCycle::R75 => 3u32,
    }
}

/// The duty cycle named by a 2-bit code.
pub open spec fn spec_duty_from_bits(bits: u32) -> BlinkDutyCycle {
    if bits == 0 {
        BlinkDutyCycle::R12_5
    } else if bits == 1 {
        BlinkDutyCycle::R25
    } else if bits == 2 {
        BlinkDutyCycle::R50
    } else {
        BlinkDutyCycle::R75
    }
}

impl BlinkDutyCycle {
    /// Accepts exactly the numeric codes 0 through 3; anything else is
    /// rejected with `Parse`.
    pub fn from_num(num: u8) -> (r: Result<BlinkDutyCycle, CtrlError>)
        ensures
            num <= 3 ==> r == Ok::<BlinkDutyCycle, CtrlError>(spec_duty_from_bits(num as u32)),
            r is Err <==> num > 3,
            r is Err ==> r == Err::<BlinkDutyCycle, CtrlError>(CtrlError::Parse),
    {
        match num {
            0 => Ok(BlinkDutyCycle::R12_5),
            1 => Ok(BlinkDutyCycle::R25),
            2 => Ok(BlinkDutyCycle::R50),
            3 => Ok(BlinkDutyCycle::R75),
            _ => Err(CtrlError::Parse),
        }
    }

    /// The duty cycle encoded in bits 16 and 17 of a raw register value.
    pub fn from_raw(value: u32) -> (r: BlinkDutyCycle)
        ensures
            r == spec_duty_from_bits((value >> 16) & 3),
    {
        let bits: u32 = (value >> 16) & 3;
        if bits == 0 {
            BlinkDutyCycle::R12_5
        } else if bits == 1 {
            BlinkDutyCycle::R25
        } else if bits == 2 {
            BlinkDutyCycle::R50
        } else {
            BlinkDutyCycle::R75
        }
    }

    /// This duty cycle's code shifted into bits 16 and 17.
    pub fn to_raw(self) -> (r: u32)
        ensures
            r == spec_duty_to_num(self) << 16u32,
    {
        let n: u32 = match self {
            BlinkDutyCycle::R12_5 => 0u32,
            BlinkDutyCycle::R25 => 1u32,
            BlinkDutyCycle::R50 => 2u32,
            BlinkDutyCycle::R75 => 3u32,
        };
        n << 16
    }
}

/// The whole LED register as structured data: the three LED slots, the
/// global flags, and the residue of every bit outside the defined mask,
/// preserved verbatim.
#[derive(Debug, Clone, PartialEq, Eq, Structural)]
pub struct LedGlobalConfig {
    pub led_0: LedConfig,
    pub led_1: LedConfig,
    pub led_2: LedConfig,
    pub all_link_activity: bool,
    pub blink_interval: BlinkInterval,
    pub blink_duty_cycle: BlinkDutyCycle,
    pub unknown: u32,
}

/// Every field of the structured configuration as read from a raw value.
pub open spec fn spec_global_from_raw(v: u32) -> LedGlobalConfig {
    LedGlobalConfig {
        led_0: spec_led_from_raw(v, 0),
        led_1: spec_led_from_raw(v, 1),
        led_2: spec_led_from_raw(v, 2),
        all_link_activity: v & (1u32 << 15u32) != 0,
        blink_interval: spec_interval_from_bits((v >> 18) & 3),
        blink_duty_cycle: spec_duty_from_bits((v >> 16) & 3),
        unknown: v & !LED_VALUE_MASK,
    }
}

/// The raw value that a structured configuration packs into: the OR of
/// every field's placement, with the residue masked so that it can never
/// clobber a defined field.
pub open spec fn spec_global_to_raw(c: LedGlobalConfig) -> u32 {
    spec_led_to_raw(c.led_0, 0) | spec_led_to_raw(c.led_1, 1) | spec_led_to_raw(c.led_2, 2) | (
    if c.all_link_activity {
        1u32 << 15u32
    } else {
        0u32
    }) | (spec_interval_to_num(c.blink_interval) << 18u32) | (spec_duty_to_num(c.blink_duty_cycle)
        << 16u32) | (c.unknown & !LED_VALUE_MASK)
}

impl LedGlobalConfig {
    /// Decodes a raw register value into the structured configuration.
    pub fn from_raw(value: u32) -> (r: LedGlobalConfig)
        ensures
            r == spec_global_from_raw(value),
    {
        LedGlobalConfig {
            led_0: LedConfig::from_raw(value, 0),
            led_1: LedConfig::from_raw(value, 1),
            led_2: LedConfig::from_raw(value, 2),
            all_link_activity: value & (1u32 << 15) != 0,
            blink_interval: BlinkInterval::from_raw(value),
            blink_duty_cycle: BlinkDutyCycle::from_raw(value),
            unknown: value & !LED_VALUE_MASK,
        }
    }

    /// Encodes the structured configuration back into a raw register
    /// value.
    pub fn to_raw(&self) -> (r: u32)
        ensures
            r == spec_global_to_raw(*self),
    {
        let led_0 = self.led_0.to_raw(0);
        let led_1 = self.led_1.to_raw(1);
        let led_2 = self.led_2.to_raw(2);
        let all_link_activity: u32 = if self.all_link_activity {
            1u32 << 15
        } else {
            0u32
        };
        let blink_interval = self.blink_interval.to_raw();
        let blink_duty_cycle = self.blink_duty_cycle.to_raw();
        led_0 | led_1 | led_2 | all_link_activity | blink_interval | blink_duty_cycle | (
        self.unknown & !LED_VALUE_MASK)
    }
}

impl LedConfig {
    /// True iff this LED blinks on activity of every link speed: it is
    /// triggered by activity, and either none of its link triggers is
    /// set or the global all-link flag is on.
    pub fn blinks_on_all_links(&self, all_link_activity: bool) -> (r: bool)
        ensures
            r == ((!self.link10 && !self.link100 && !self.link1000 || all_link_activity)
                && self.activity),
    {
        (!self.link10 && !self.link100 && !self.link1000 || all_link_activity) && self.activity
    }
}

impl LedGlobalConfig {
    /// Reads the live configuration: one dword read of the LED register,
    /// decoded. The register offset is dword-aligned and well inside the
    /// address space, so neither `Align` nor `Bound` can come back.
    pub fn read_from(ctrl: &CtrlDevice) -> (r: Result<LedGlobalConfig, CtrlError>)
        ensures
            r matches Ok(c) ==> exists|w: u32| c == spec_global_from_raw(w),
            r matches Err(e) ==> e == CtrlError::Partial || e matches CtrlError::Usb(_),
    {
        match ctrl.read_dword(RegType::Pla, PLA_LED_SELECT) {
            Ok(w) => Ok(LedGlobalConfig::from_raw(w)),
            Err(e) => Err(e),
        }
    }

    /// Writes the configuration back: one dword write of the encoded
    /// value to the LED register. As for the read, neither `Align` nor
    /// `Bound` can come back.
    pub fn write_to(&self, ctrl: &CtrlDevice) -> (r: Result<(), CtrlError>)
        ensures
            r matches Err(e) ==> e == CtrlError::Partial || e matches CtrlError::Usb(_),
    {
        ctrl.write_dword(RegType::Pla, PLA_LED_SELECT, self.to_raw())
    }
}

/// The three link-speed triggers that one LED can be set to follow.
#[derive(Debug, Clone, Copy, PartialEq, Eq, Structural)]
pub struct LinkSpeeds {
    pub link10: bool,
    pub link100: bool,
    pub link1000: bool,
}

/// A partial update of the LED configuration: each field either names a
/// new value or leaves the old one (or an opinionated default) in place.
#[derive(Debug, Clone, Copy, PartialEq, Eq)]
pub struct LedUpdate {
    pub led0_link: Option<LinkSpeeds>,
    pub led0_act: Option<bool>,
    pub led0_reverse: Option<bool>,
    pub led1_link: Option<LinkSpeeds>,
    pub led1_act: Option<bool>,
    pub led1_reverse: Option<bool>,
    pub led2_link: Option<LinkSpeeds>,
    pub led2_act: Option<bool>,
    pub led2_reverse: Option<bool>,
    pub act_all: Option<bool>,
    pub interval: Option<u8>,
    pub duty_cycle: Option<u8>,
}

/// One LED slot after a partial update: a given value wins, otherwise
/// the opinionated default (slot 0 follows every link speed, slot 1
/// blinks on activity, no slot is reversed), otherwise the old value.
pub open spec fn spec_apply_led(
    link: Option<LinkSpeeds>,
    act: Option<bool>,
    reverse: Option<bool>,
    led: LedConfig,
    index: u8,
    default: bool,
) -> LedConfig {
    let with_link = match link {
        Some(ls) => LedConfig {
            link10: ls.link10,
            link100: ls.link100,
            link1000: ls.link1000,
            ..led
        },
        None => if default {
            LedConfig { link10: index == 0, link100: index == 0, link1000: index == 0, ..led }
        } else {
            led
        },
    };
    let with_act = match act {
        Some(b) => LedConfig { activity: b, ..with_link },
        None => if default {
            LedConfig { activity: index == 1, ..with_link }
        } else {
            with_link
        },
    };
    match reverse {
        Some(b) => LedConfig { high_active: b, ..with_act },
        None => if default {
            LedConfig { high_active: false, ..with_act }
        } else {
            with_act
        },
    }
}

/// Applies a partial update to one LED slot.
fn apply_led_update(
    link: Option<LinkSpeeds>,
    act: Option<bool>,
    reverse: Option<bool>,
    led: LedConfig,
    index: u8,
    default: bool,
) -> (r: LedConfig)
    ensures
        r == spec_apply_led(link, act, reverse, led, index, default),
{
    let mut r = led;
    match link {
        Some(ls) => {
            r.link10 = ls.link10;
            r.link100 = ls.link100;
            r.link1000 = ls.link1000;
        }
        None => {
            if default {
                r.link10 = index == 0;
                r.link100 = index == 0;
                r.link1000 = index == 0;
            }
        }
    }
    match act {
        Some(b) => {
            r.activity = b;
        }
        None => {
            if default {
                r.activity = index == 1;
            }
        }
    }
    match reverse {
        Some(b) => {
            r.high_active = b;
        }
        None => {
            if default {
                r.high_active = false;
            }
        }
    }
    r
}

/// The whole configuration after a partial update with valid blink
/// codes: per-slot updates, then the global flags, with the residue
/// carried through untouched.
pub open spec fn spec_update_led_config(
    u: LedUpdate,
    c: LedGlobalConfig,
    default: bool,
) -> LedGlobalConfig {
    LedGlobalConfig {
        led_0: spec_apply_led(u.led0_link, u.led0_act, u.led0_reverse, c.led_0, 0, default),
        led_1: spec_apply_led(u.led1_link, u.led1_act, u.led1_reverse, c.led_1, 1, default),
        led_2: spec_apply_led(u.led2_link, u.led2_act, u.led2_reverse, c.led_2, 2, default),
        all_link_activity: match u.act_all {
            Some(b) => b,
            None => if default {
                false
            } else {
                c.all_link_activity
            },
        },
        blink_interval: match u.interval {
            Some(n) => spec_interval_from_bits(n as u32),
            None => if default {
                BlinkInterval::ILink
            } else {
                c.blink_interval
            },
        },
        blink_duty_cycle: match u.duty_cycle {
            Some(n) => spec_duty_from_bits(n as u32),
            None => if default {
                BlinkDutyCycle::R50
            } else {
                c.blink_duty_cycle
            },
        },
        unknown: c.unknown,
    }
}

impl LedUpdate {
    /// Merges this update into a configuration. With `default` set,
    /// fields the update leaves open take the opinionated defaults
    /// instead of their old values. An out-of-range blink interval or
    /// duty-cycle code is rejected with `Parse` before anything is
    /// changed.
    pub fn update_led_config(&self, config: &mut LedGlobalConfig, default: bool) -> (r: Result<
        (),
        CtrlError,
    >)
        ensures
            r is Err <==> (self.interval matches Some(n) && n > 3) || (
            self.duty_cycle matches Some(n) && n > 3),
            r is Err ==> r == Err::<(), CtrlError>(CtrlError::Parse) && *final(config) == *old(
                config,
            ),
            r is Ok ==> *final(config) == spec_update_led_config(*self, *old(config), default),
    {
        let new_interval: Option<BlinkInterval> = match self.interval {
            Some(n) => match BlinkInterval::from_num(n) {
                Ok(iv) => Some(iv),
                Err(e) => {
                    return Err(e);
                }
            },
            None => None,
        };
        let new_duty: Option<BlinkDutyCycle> = match self.duty_cycle {
            Some(n) => match BlinkDutyCycle::from_num(n) {
                Ok(dc) => Some(dc),
                Err(e) => {
                    return Err(e);
                }
            },
            None => None,
        };
        let led_0 = apply_led_update(
            self.led0_link,
            self.led0_act,
            self.led0_reverse,
            config.led_0,
            0,
            default,
        );
        let led_1 = apply_led_update(
            self.led1_link,
            self.led1_act,
            self.led1_reverse,
            config.led_1,
            1,
            default,
        );
        let led_2 = apply_led_update(
            self.led2_link,
            self.led2_act,
            self.led2_reverse,
            config.led_2,
            2,
            default,
        );
        let all_link_activity: bool = match self.act_all {
            Some(b) => b,
            None => if default {
                false
            } else {
                config.all_link_activity
            },
        };
        let blink_interval: BlinkInterval = match new_interval {
            Some(iv) => iv,
            None => if default {
                BlinkInterval::ILink
            } else {
                config.blink_interval
            },
        };
        let blink_duty_cycle: BlinkDutyCycle = match new_duty {
            Some(dc) => dc,
            None => if default {
                BlinkDutyCycle::R50
            } else {
                config.blink_duty_cycle
            },
        };
        let unknown: u32 = config.unknown;
        *config = LedGlobalConfig {
            led_0,
            led_1,
            led_2,
            all_link_activity,
            blink_interval,
            blink_duty_cycle,
            unknown,
        };
        Ok(())
    }
}

/// One LED slot decoded from `v` and packed back contributes exactly
/// the slot's own bits of `v`: the four trigger bits at `4 * i` and the
/// polarity bit at `12 + i`.
proof fn lemma_led_slot_round_trip(v: u32, i: u32)
    requires
        i < 3,
    ensures
        spec_led_to_raw(spec_led_from_raw(v, i), i) == (v & (0x0fu32 << ((4 * i) as u32))) | (v & (
        1u32 << ((12 + i) as u32))),
{
    assert((((if ((v >> ((4 * i) as u32)) & 1 != 0) {
        1u32
    } else {
        0u32
    }) | (if ((v >> ((4 * i) as u32)) & 2 != 0) {
        2u32
    } else {
        0u32
    }) | (if ((v >> ((4 * i) as u32)) & 4 != 0) {
        4u32
    } else {
        0u32
    }) | (if ((v >> ((4 * i) as u32)) & 8 != 0) {
        8u32
    } else {
        0u32
    })) << ((4 * i) as u32)) | (if (v & (1u32 << ((12 + i) as u32)) != 0) {
        1u32 << ((12 + i) as u32)
    } else {
        0u32
    }) == (v & (0x0fu32 << ((4 * i) as u32))) | (v & (1u32 << ((12 + i) as u32)))) by (bit_vector)
        requires
            i < 3,
    ;
}

/// The round-trip law of the codec: decoding any 32-bit value and
/// encoding the result gives the value back, defined fields and residue
/// bits alike.
pub proof fn lemma_led_round_trip(v: u32)
    ensures
        spec_global_to_raw(spec_global_from_raw(v)) == v,
{
    lemma_led_slot_round_trip(v, 0);
    lemma_led_slot_round_trip(v, 1);
    lemma_led_slot_round_trip(v, 2);
    let ib = (v >> 18) & 3;
    let db = (v >> 16) & 3;
    assert(ib == 0 || ib == 1 || ib == 2 || ib == 3) by (bit_vector)
        requires
            ib == (v >> 18) & 3,
    ;
    assert(db == 0 || db == 1 || db == 2 || db == 3) by (bit_vector)
        requires
            db == (v >> 16) & 3,
    ;
    assert(spec_interval_to_num(spec_interval_from_bits(ib)) == ib);
    assert(spec_duty_to_num(spec_duty_from_bits(db)) == db);
    assert((if (v & (1u32 << 15u32) != 0) {
        1u32 << 15u32
    } else {
        0u32
    }) == v & (1u32 << 15u32)) by (bit_vector);
    assert((((v & (0x0fu32 << ((4 * 0) as u32))) | (v & (1u32 << ((12 + 0) as u32)))) | ((v & (
    0x0fu32 << ((4 * 1) as u32))) | (v & (1u32 << ((12 + 1) as u32)))) | ((v & (0x0fu32 << ((4
        * 2) as u32))) | (v & (1u32 << ((12 + 2) as u32)))) | (v & (1u32 << 15u32)) | (ib
        << 18u32) | (db << 16u32) | ((v & !0xfffffu32) & !0xfffffu32)) == v) by (bit_vector)
        requires
            ib == (v >> 18) & 3,
            db == (v >> 16) & 3,
    ;
}

} // verus!
