use vstd::prelude::*;
use vstd::string::StringExecFns;

use crate::text::{join, joined, lemma_contains_concat, views};

verus! {

/// Status flags parsed from payload bytes 11-13 (after & 0x0F masking).
#[derive(Debug, Clone, Copy, PartialEq, Eq, Structural)]
pub struct StatusFlags {
    pub hold: bool,
    pub rel: bool,
    pub auto_range: bool,
    pub min: bool,
    pub max: bool,
    pub low_battery: bool,
}

/// The flags that the three flag bytes encode.
///
/// Byte 11 (flag1): bit0 = Hold, bit1 = REL
/// Byte 12 (flag2): bit0 = Auto, bit1 = Min, bit2 = Max
/// Byte 13 (flag3): bit0 = Low Battery
pub open spec fn decode_flags(flag1: u8, flag2: u8, flag3: u8) -> StatusFlags {
    StatusFlags {
        hold: flag1 & 0x01 != 0,
        rel: flag1 & 0x02 != 0,
        auto_range: flag2 & 0x01 != 0,
        min: flag2 & 0x02 != 0,
        max: flag2 & 0x04 != 0,
        low_battery: flag3 & 0x01 != 0,
    }
}

/// The word for a flag when it is set, and nothing when it is not.
pub open spec fn word_if(set: bool, word: Seq<char>) -> Seq<Seq<char>> {
    if set {
        seq![word]
    } else {
        Seq::empty()
    }
}

/// The words naming the set flags, in display order.
pub open spec fn flag_words(f: StatusFlags) -> Seq<Seq<char>> {
    word_if(f.hold, "HOLD"@) + word_if(f.rel, "REL"@) + word_if(f.auto_range, "AUTO"@) + word_if(
        f.min,
        "MIN"@,
    ) + word_if(f.max, "MAX"@) + word_if(f.low_battery, "LOW BAT"@)
}

impl StatusFlags {
    /// Parse flags from the three flag bytes (already masked with & 0x0F).
    ///
    /// Byte 11 (flag1): bit0 = Hold, bit1 = REL
    /// Byte 12 (flag2): bit0 = Auto, bit1 = Min, bit2 = Max
    /// Byte 13 (flag3): bit0 = Low Battery
    pub fn parse(flag1: u8, flag2: u8, flag3: u8) -> (f: Self)
        ensures
            f == decode_flags(flag1, flag2, flag3),
    {
        Self {
            hold: flag1 & 0x01 != 0,
            rel: flag1 & 0x02 != 0,
            auto_range: flag2 & 0x01 != 0,
            min: flag2 & 0x02 != 0,
            max: flag2 & 0x04 != 0,
            low_battery: flag3 & 0x01 != 0,
        }
    }

    /// The set flags as text: their names in the order HOLD, REL, AUTO,
    /// MIN, MAX, LOW BAT, separated by single spaces.
    pub fn to_string(&self) -> (s: String)
        ensures
            s@ == joined(flag_words(*self), " "@),
    {
        let mut parts: Vec<String> = Vec::new();
        let ghost mut words: Seq<Seq<char>> = Seq::empty();
        if self.hold {
            parts.push(String::from_str("HOLD"));
        }
        proof { words = word_if(self.hold, "HOLD"@); }
        assert(views(parts@) =~= words);
        if self.rel {
            parts.push(String::from_str("REL"));
        }
        proof { words = words + word_if(self.rel, "REL"@); }
        assert(views(parts@) =~= words);
        if self.auto_range {
            parts.push(String::from_str("AUTO"));
        }
        proof { words = words + word_if(self.auto_range, "AUTO"@); }
        assert(views(parts@) =~= words);
        if self.min {
            parts.push(String::from_str("MIN"));
        }
        proof { words = words + word_if(self.min, "MIN"@); }
        assert(views(parts@) =~= words);
        if self.max {
            parts.push(String::from_str("MAX"));
        }
        proof { words = words + word_if(self.max, "MAX"@); }
        assert(views(parts@) =~= words);
        if self.low_battery {
            parts.push(String::from_str("LOW BAT"));
        }
        proof { words = words + word_if(self.low_battery, "LOW BAT"@); }
        assert(views(parts@) =~= words);
        join(&parts, " ")
    }
}

impl Default for StatusFlags {
    /// No flag set.
    fn default() -> (f: Self)
        ensures
            f == decode_flags(0, 0, 0),
            !f.hold && !f.rel && !f.auto_range && !f.min && !f.max && !f.low_battery,
    {
        assert(0u8 & 0x01 == 0 && 0u8 & 0x02 == 0 && 0u8 & 0x04 == 0) by (bit_vector);
        Self {
            hold: false,
            rel: false,
            auto_range: false,
            min: false,
            max: false,
            low_battery: false,
        }
    }
}

/// Only the bits that name a flag matter: bits outside them, the high
/// nibble that the payload carries among them, change nothing.
pub proof fn lemma_decode_flags_masked(flag1: u8, flag2: u8, flag3: u8)
    ensures
        decode_flags(flag1 & 0x0F, flag2 & 0x0F, flag3 & 0x0F) == decode_flags(flag1, flag2, flag3),
        decode_flags(flag1 & 0x03, flag2 & 0x07, flag3 & 0x01) == decode_flags(flag1, flag2, flag3),
{
    assert((flag1 & 0x0F) & 0x01 == flag1 & 0x01 && (flag1 & 0x0F) & 0x02 == flag1 & 0x02)
        by (bit_vector);
    assert((flag2 & 0x0F) & 0x01 == flag2 & 0x01 && (flag2 & 0x0F) & 0x02 == flag2 & 0x02 && (
    flag2 & 0x0F) & 0x04 == flag2 & 0x04) by (bit_vector);
    assert((flag3 & 0x0F) & 0x01 == flag3 & 0x01) by (bit_vector);
    assert((flag1 & 0x03) & 0x01 == flag1 & 0x01 && (flag1 & 0x03) & 0x02 == flag1 & 0x02)
        by (bit_vector);
    assert((flag2 & 0x07) & 0x01 == flag2 & 0x01 && (flag2 & 0x07) & 0x02 == flag2 & 0x02 && (
    flag2 & 0x07) & 0x04 == flag2 & 0x04) by (bit_vector);
    assert((flag3 & 0x01) & 0x01 == flag3 & 0x01) by (bit_vector);
}

/// Each flag follows its own bit: setting that bit sets the flag.
pub proof fn lemma_decode_flags_bits(flag1: u8, flag2: u8, flag3: u8)
    ensures
        decode_flags(flag1, flag2, flag3).hold <==> flag1 % 2 == 1,
        decode_flags(flag1, flag2, flag3).rel <==> (flag1 / 2) % 2 == 1,
        decode_flags(flag1, flag2, flag3).auto_range <==> flag2 % 2 == 1,
        decode_flags(flag1, flag2, flag3).min <==> (flag2 / 2) % 2 == 1,
        decode_flags(flag1, flag2, flag3).max <==> (flag2 / 4) % 2 == 1,
        decode_flags(flag1, flag2, flag3).low_battery <==> flag3 % 2 == 1,
{
    assert((flag1 & 0x01 != 0) == (flag1 % 2 == 1)) by (bit_vector);
    assert((flag1 & 0x02 != 0) == ((flag1 / 2) % 2 == 1)) by (bit_vector);
    assert((flag2 & 0x01 != 0) == (flag2 % 2 == 1)) by (bit_vector);
    assert((flag2 & 0x02 != 0) == ((flag2 / 2) % 2 == 1)) by (bit_vector);
    assert((flag2 & 0x04 != 0) == ((flag2 / 4) % 2 == 1)) by (bit_vector);
    assert((flag3 & 0x01 != 0) == (flag3 % 2 == 1)) by (bit_vector);
}

/// The place of a flag word in the display order HOLD, REL, AUTO, MIN, MAX,
/// LOW BAT (6 for any other text).
pub open spec fn flag_rank(w: Seq<char>) -> int {
    if w == "HOLD"@ {
        0
    } else if w == "REL"@ {
        1
    } else if w == "AUTO"@ {
        2
    } else if w == "MIN"@ {
        3
    } else if w == "MAX"@ {
        4
    } else if w == "LOW BAT"@ {
        5
    } else {
        6
    }
}

/// The words strictly follow the display order.
pub open spec fn in_flag_order(ws: Seq<Seq<char>>) -> bool {
    forall|i: int, j: int| 0 <= i < j < ws.len() ==> flag_rank(ws[i]) < flag_rank(ws[j])
}

pub(crate) proof fn lemma_flag_names_distinct()
    ensures
        flag_rank("HOLD"@) == 0,
        flag_rank("REL"@) == 1,
        flag_rank("AUTO"@) == 2,
        flag_rank("MIN"@) == 3,
        flag_rank("MAX"@) == 4,
        flag_rank("LOW BAT"@) == 5,
{
    reveal_strlit("HOLD");
    reveal_strlit("REL");
    reveal_strlit("AUTO");
    reveal_strlit("MIN");
    reveal_strlit("MAX");
    reveal_strlit("LOW BAT");
    assert("REL"@ != "HOLD"@) by { assert("REL"@.len() != "HOLD"@.len()); }
    assert("AUTO"@ != "HOLD"@) by { assert("AUTO"@[0] != "HOLD"@[0]); }
    assert("AUTO"@ != "REL"@) by { assert("AUTO"@.len() != "REL"@.len()); }
    assert("MIN"@ != "HOLD"@) by { assert("MIN"@.len() != "HOLD"@.len()); }
    assert("MIN"@ != "REL"@) by { assert("MIN"@[0] != "REL"@[0]); }
    assert("MIN"@ != "AUTO"@) by { assert("MIN"@.len() != "AUTO"@.len()); }
    assert("MAX"@ != "HOLD"@) by { assert("MAX"@.len() != "HOLD"@.len()); }
    assert("MAX"@ != "REL"@) by { assert("MAX"@[0] != "REL"@[0]); }
    assert("MAX"@ != "AUTO"@) by { assert("MAX"@.len() != "AUTO"@.len()); }
    assert("MAX"@ != "MIN"@) by { assert("MAX"@[1] != "MIN"@[1]); }
    assert("LOW BAT"@ != "HOLD"@) by { assert("LOW BAT"@.len() != "HOLD"@.len()); }
    assert("LOW BAT"@ != "REL"@) by { assert("LOW BAT"@.len() != "REL"@.len()); }
    assert("LOW BAT"@ != "AUTO"@) by { assert("LOW BAT"@.len() != "AUTO"@.len()); }
    assert("LOW BAT"@ != "MIN"@) by { assert("LOW BAT"@.len() != "MIN"@.len()); }
    assert("LOW BAT"@ != "MAX"@) by { assert("LOW BAT"@.len() != "MAX"@.len()); }
}

/// Appending a word of a higher rank than all words so far keeps the order.
proof fn lemma_order_extend(ws: Seq<Seq<char>>, set: bool, w: Seq<char>, r: int)
    requires
        in_flag_order(ws),
        forall|i: int| 0 <= i < ws.len() ==> flag_rank(ws[i]) < r,
        flag_rank(w) == r,
    ensures
        in_flag_order(ws + word_if(set, w)),
        forall|i: int| 0 <= i < (ws + word_if(set, w)).len() ==> flag_rank((ws + word_if(set, w))[i]) <= r,
{
    let out = ws + word_if(set, w);
    assert forall|i: int, j: int| 0 <= i < j < out.len() implies flag_rank(out[i]) < flag_rank(out[j]) by {
        if j >= ws.len() {
            assert(out[j] == w);
            assert(out[i] == ws[i]);
        } else {
            assert(out[i] == ws[i] && out[j] == ws[j]);
        }
    }
    assert forall|i: int| 0 <= i < out.len() implies flag_rank(out[i]) <= r by {
        if i >= ws.len() {
            assert(out[i] == w);
        } else {
            assert(out[i] == ws[i]);
        }
    }
}

/// A word is among those of one optional flag exactly when the flag is set
/// and the word is that flag's.
proof fn lemma_word_if_contains(set: bool, w: Seq<char>, x: Seq<char>)
    ensures
        word_if(set, w).contains(x) <==> set && x == w,
{
    if set {
        assert(word_if(set, w)[0] == w);
    }
}

/// The text of the flags names each flag exactly when it is set, names
/// nothing else, and keeps the order HOLD, REL, AUTO, MIN, MAX, LOW BAT.
pub proof fn lemma_flag_words(f: StatusFlags)
    ensures
        flag_words(f).contains("HOLD"@) <==> f.hold,
        flag_words(f).contains("REL"@) <==> f.rel,
        flag_words(f).contains("AUTO"@) <==> f.auto_range,
        flag_words(f).contains("MIN"@) <==> f.min,
        flag_words(f).contains("MAX"@) <==> f.max,
        flag_words(f).contains("LOW BAT"@) <==> f.low_battery,
        forall|i: int| 0 <= i < flag_words(f).len() ==> flag_rank(#[trigger] flag_words(f)[i]) < 6,
        in_flag_order(flag_words(f)),
{
    lemma_flag_names_distinct();
    let p0 = word_if(f.hold, "HOLD"@);
    let p1 = word_if(f.rel, "REL"@);
    let p2 = word_if(f.auto_range, "AUTO"@);
    let p3 = word_if(f.min, "MIN"@);
    let p4 = word_if(f.max, "MAX"@);
    let p5 = word_if(f.low_battery, "LOW BAT"@);
    let a1 = p0 + p1;
    let a2 = a1 + p2;
    let a3 = a2 + p3;
    let a4 = a3 + p4;
    let a5 = a4 + p5;
    assert(a5 == flag_words(f));
    let names = seq!["HOLD"@, "REL"@, "AUTO"@, "MIN"@, "MAX"@, "LOW BAT"@];
    assert forall|k: int| 0 <= k < 6 implies (a5.contains(#[trigger] names[k]) <==> (
    p0.contains(names[k]) || p1.contains(names[k]) || p2.contains(names[k]) || p3.contains(
        names[k],
    ) || p4.contains(names[k]) || p5.contains(names[k]))) by {
        let x = names[k];
        lemma_contains_concat(p0, p1, x);
        lemma_contains_concat(a1, p2, x);
        lemma_contains_concat(a2, p3, x);
        lemma_contains_concat(a3, p4, x);
        lemma_contains_concat(a4, p5, x);
    }
    assert forall|k: int| 0 <= k < 6 implies {
        &&& (p0.contains(#[trigger] names[k]) <==> f.hold && names[k] == "HOLD"@)
        &&& (p1.contains(names[k]) <==> f.rel && names[k] == "REL"@)
        &&& (p2.contains(names[k]) <==> f.auto_range && names[k] == "AUTO"@)
        &&& (p3.contains(names[k]) <==> f.min && names[k] == "MIN"@)
        &&& (p4.contains(names[k]) <==> f.max && names[k] == "MAX"@)
        &&& (p5.contains(names[k]) <==> f.low_battery && names[k] == "LOW BAT"@)
    } by {
        let x = names[k];
        lemma_word_if_contains(f.hold, "HOLD"@, x);
        lemma_word_if_contains(f.rel, "REL"@, x);
        lemma_word_if_contains(f.auto_range, "AUTO"@, x);
        lemma_word_if_contains(f.min, "MIN"@, x);
        lemma_word_if_contains(f.max, "MAX"@, x);
        lemma_word_if_contains(f.low_battery, "LOW BAT"@, x);
    }
    assert(names[0] == "HOLD"@);
    assert(names[1] == "REL"@);
    assert(names[2] == "AUTO"@);
    assert(names[3] == "MIN"@);
    assert(names[4] == "MAX"@);
    assert(names[5] == "LOW BAT"@);
    let e = Seq::<Seq<char>>::empty();
    assert(e + p0 =~= p0);
    lemma_order_extend(e, f.hold, "HOLD"@, 0);
    lemma_order_extend(p0, f.rel, "REL"@, 1);
    lemma_order_extend(a1, f.auto_range, "AUTO"@, 2);
    lemma_order_extend(a2, f.min, "MIN"@, 3);
    lemma_order_extend(a3, f.max, "MAX"@, 4);
    lemma_order_extend(a4, f.low_battery, "LOW BAT"@, 5);
}

} // verus!
