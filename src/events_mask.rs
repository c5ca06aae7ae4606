use vstd::prelude::*;

verus! {

/// Container lifecycle events of the node resource interface.
#[allow(non_camel_case_types)]
#[derive(Debug, Clone, Copy, PartialEq, Eq, Structural)]
pub enum Event {
    UNKNOWN,
    RUN_POD_SANDBOX,
    STOP_POD_SANDBOX,
    REMOVE_POD_SANDBOX,
    CREATE_CONTAINER,
    POST_CREATE_CONTAINER,
    START_CONTAINER,
    POST_START_CONTAINER,
    UPDATE_CONTAINER,
    POST_UPDATE_CONTAINER,
    STOP_CONTAINER,
    REMOVE_CONTAINER,
    UPDATE_POD_SANDBOX,
    POST_UPDATE_POD_SANDBOX,
    LAST,
}

/// Numeric value of `LAST`, one past the largest valid event.
pub const EVENT_LAST_VALUE: i32 = 14;

pub open spec fn spec_event_value(e: Event) -> i32 {
    match e {
        Event::UNKNOWN => 0,
        Event::RUN_POD_SANDBOX => 1,
        Event::STOP_POD_SANDBOX => 2,
        Event::REMOVE_POD_SANDBOX => 3,
        Event::CREATE_CONTAINER => 4,
        Event::POST_CREATE_CONTAINER => 5,
        Event::START_CONTAINER => 6,
        Event::POST_START_CONTAINER => 7,
        Event::UPDATE_CONTAINER => 8,
        Event::POST_UPDATE_CONTAINER => 9,
        Event::STOP_CONTAINER => 10,
        Event::REMOVE_CONTAINER => 11,
        Event::UPDATE_POD_SANDBOX => 12,
        Event::POST_UPDATE_POD_SANDBOX => 13,
        Event::LAST => 14,
    }
}

/// The event with value `v`, if any.
pub open spec fn spec_event_of(v: i32) -> Option<Event> {
    if v == 0 {
        Some(Event::UNKNOWN)
    } else if v == 1 {
        Some(Event::RUN_POD_SANDBOX)
    } else if v == 2 {
        Some(Event::STOP_POD_SANDBOX)
    } else if v == 3 {
        Some(Event::REMOVE_POD_SANDBOX)
    } else if v == 4 {
        Some(Event::CREATE_CONTAINER)
    } else if v == 5 {
        Some(Event::POST_CREATE_CONTAINER)
    } else if v == 6 {
        Some(Event::START_CONTAINER)
    } else if v == 7 {
        Some(Event::POST_START_CONTAINER)
    } else if v == 8 {
        Some(Event::UPDATE_CONTAINER)
    } else if v == 9 {
        Some(Event::POST_UPDATE_CONTAINER)
    } else if v == 10 {
        Some(Event::STOP_CONTAINER)
    } else if v == 11 {
        Some(Event::REMOVE_CONTAINER)
    } else if v == 12 {
        Some(Event::UPDATE_POD_SANDBOX)
    } else if v == 13 {
        Some(Event::POST_UPDATE_POD_SANDBOX)
    } else if v == 14 {
        Some(Event::LAST)
    } else {
        None
    }
}

impl Event {
    /// The event's numeric value.
    pub fn value(&self) -> (r: i32)
        ensures
            r == spec_event_value(*self),
    {
        match self {
            Event::UNKNOWN => 0,
            Event::RUN_POD_SANDBOX => 1,
            Event::STOP_POD_SANDBOX => 2,
            Event::REMOVE_POD_SANDBOX => 3,
            Event::CREATE_CONTAINER => 4,
            Event::POST_CREATE_CONTAINER => 5,
            Event::START_CONTAINER => 6,
            Event::POST_START_CONTAINER => 7,
            Event::UPDATE_CONTAINER => 8,
            Event::POST_UPDATE_CONTAINER => 9,
            Event::STOP_CONTAINER => 10,
            Event::REMOVE_CONTAINER => 11,
            Event::UPDATE_POD_SANDBOX => 12,
            Event::POST_UPDATE_POD_SANDBOX => 13,
            Event::LAST => 14,
        }
    }

    /// The event with value `v`, if any.
    pub fn from_i32(v: i32) -> (r: Option<Event>)
        ensures
            r == spec_event_of(v),
    {
        if v == 0 {
            Some(Event::UNKNOWN)
        } else if v == 1 {
            Some(Event::RUN_POD_SANDBOX)
        } else if v == 2 {
            Some(Event::STOP_POD_SANDBOX)
        } else if v == 3 {
            Some(Event::REMOVE_POD_SANDBOX)
        } else if v == 4 {
            Some(Event::CREATE_CONTAINER)
        } else if v == 5 {
            Some(Event::POST_CREATE_CONTAINER)
        } else if v == 6 {
            Some(Event::START_CONTAINER)
        } else if v == 7 {
            Some(Event::POST_START_CONTAINER)
        } else if v == 8 {
            Some(Event::UPDATE_CONTAINER)
        } else if v == 9 {
            Some(Event::POST_UPDATE_CONTAINER)
        } else if v == 10 {
            Some(Event::STOP_CONTAINER)
        } else if v == 11 {
            Some(Event::REMOVE_CONTAINER)
        } else if v == 12 {
            Some(Event::UPDATE_POD_SANDBOX)
        } else if v == 13 {
            Some(Event::POST_UPDATE_POD_SANDBOX)
        } else if v == 14 {
            Some(Event::LAST)
        } else {
            None
        }
    }

    /// The event's name.
    pub fn name(&self) -> (r: &'static str)
        ensures
            r@ == spec_event_name(*self),
    {
        match self {
            Event::UNKNOWN => "UNKNOWN",
            Event::RUN_POD_SANDBOX => "RUN_POD_SANDBOX",
            Event::STOP_POD_SANDBOX => "STOP_POD_SANDBOX",
            Event::REMOVE_POD_SANDBOX => "REMOVE_POD_SANDBOX",
            Event::CREATE_CONTAINER => "CREATE_CONTAINER",
            Event::POST_CREATE_CONTAINER => "POST_CREATE_CONTAINER",
            Event::START_CONTAINER => "START_CONTAINER",
            Event::POST_START_CONTAINER => "POST_START_CONTAINER",
            Event::UPDATE_CONTAINER => "UPDATE_CONTAINER",
            Event::POST_UPDATE_CONTAINER => "POST_UPDATE_CONTAINER",
            Event::STOP_CONTAINER => "STOP_CONTAINER",
            Event::REMOVE_CONTAINER => "REMOVE_CONTAINER",
            Event::UPDATE_POD_SANDBOX => "UPDATE_POD_SANDBOX",
            Event::POST_UPDATE_POD_SANDBOX => "POST_UPDATE_POD_SANDBOX",
            Event::LAST => "LAST",
        }
    }
}

pub open spec fn spec_event_name(e: Event) -> Seq<char> {
    match e {
        Event::UNKNOWN => "UNKNOWN"@,
        Event::RUN_POD_SANDBOX => "RUN_POD_SANDBOX"@,
        Event::STOP_POD_SANDBOX => "STOP_POD_SANDBOX"@,
        Event::REMOVE_POD_SANDBOX => "REMOVE_POD_SANDBOX"@,
        Event::CREATE_CONTAINER => "CREATE_CONTAINER"@,
        Event::POST_CREATE_CONTAINER => "POST_CREATE_CONTAINER"@,
        Event::START_CONTAINER => "START_CONTAINER"@,
        Event::POST_START_CONTAINER => "POST_START_CONTAINER"@,
        Event::UPDATE_CONTAINER => "UPDATE_CONTAINER"@,
        Event::POST_UPDATE_CONTAINER => "POST_UPDATE_CONTAINER"@,
        Event::STOP_CONTAINER => "STOP_CONTAINER"@,
        Event::REMOVE_CONTAINER => "REMOVE_CONTAINER"@,
        Event::UPDATE_POD_SANDBOX => "UPDATE_POD_SANDBOX"@,
        Event::POST_UPDATE_POD_SANDBOX => "POST_UPDATE_POD_SANDBOX"@,
        Event::LAST => "LAST"@,
    }
}

/// An event that a mask can hold: neither `UNKNOWN` nor `LAST`.
pub open spec fn is_valid_event(e: Event) -> bool {
    spec_event_value(e) != 0 && spec_event_value(e) < EVENT_LAST_VALUE
}

/// The bit of a valid event.
pub open spec fn event_bit(e: Event) -> i32 {
    (1i32 << ((spec_event_value(e) - 1) as i32)) as i32
}

/// The bits of the valid events among `events`.
pub open spec fn event_bits(events: Seq<Event>) -> i32
    decreases events.len(),
{
    if events.len() == 0 {
        0
    } else {
        let rest = event_bits(events.drop_last());
        if is_valid_event(events.last()) {
            rest | event_bit(events.last())
        } else {
            rest
        }
    }
}

/// A set of events, one bit each: the bit of an event is its value less one.
#[derive(Debug, Default, Clone, Copy, PartialEq, Eq, Structural)]
pub struct EventMask(i32);

impl View for EventMask {
    type V = i32;

    closed spec fn view(&self) -> i32 {
        self.0
    }
}

/// The mask of every valid event.
pub fn valid_events() -> (r: EventMask)
    ensures
        r@ == 0x1fff,
{
    EventMask(0x1fff)
}

fn valid_event_bit(event: Event) -> (r: Option<i32>)
    ensures
        is_valid_event(event) ==> r == Some(event_bit(event)),
        !is_valid_event(event) ==> r is None,
{
    let v = event.value();
    if v != 0 && v < EVENT_LAST_VALUE {
        Some(1i32 << ((v - 1) as i32))
    } else {
        None
    }
}

impl EventMask {
    /// An empty mask.
    pub fn new() -> (r: Self)
        ensures
            r@ == 0,
    {
        EventMask(0)
    }

    /// A mask with the given raw value.
    pub fn from_raw(value: i32) -> (r: Self)
        ensures
            r@ == value,
    {
        EventMask(value)
    }

    /// The mask's raw value.
    pub fn raw_value(&self) -> (r: i32)
        ensures
            r == self@,
    {
        self.0
    }

    /// Adds the valid events among `events`; others are ignored.
    pub fn set(&mut self, events: &[Event]) -> (r: &mut Self)
        ensures
            r@ == old(self)@ | event_bits(events@),
            *final(self) == *final(r),
    {
        let ghost o = self@;
        assert(o | 0 == o) by (bit_vector);
        assert(events@.take(0) =~= Seq::<Event>::empty());
        let mut i: usize = 0;
        while i < events.len()
            invariant
                i <= events@.len(),
                self@ == old(self)@ | event_bits(events@.take(i as int)),
            decreases events@.len() - i,
        {
            let ghost prev = self@;
            let ghost rest = event_bits(events@.take(i as int));
            assert(events@.take(i + 1).drop_last() =~= events@.take(i as int));
            match valid_event_bit(events[i]) {
                Some(bit) => {
                    self.0 = self.0 | bit;
                    let ghost o = old(self)@;
                    assert((o | rest) | bit == o | (rest | bit)) by (bit_vector);
                },
                None => {},
            }
            i = i + 1;
        }
        assert(events@.take(i as int) =~= events@);
        self
    }

    /// Removes the valid events among `events`; others are ignored.
    pub fn clear(&mut self, events: &[Event]) -> (r: &mut Self)
        ensures
            r@ == old(self)@ & !event_bits(events@),
            *final(self) == *final(r),
    {
        let ghost o = self@;
        assert(o & !0i32 == o) by (bit_vector);
        assert(events@.take(0) =~= Seq::<Event>::empty());
        let mut i: usize = 0;
        while i < events.len()
            invariant
                i <= events@.len(),
                self@ == old(self)@ & !event_bits(events@.take(i as int)),
            decreases events@.len() - i,
        {
            let ghost rest = event_bits(events@.take(i as int));
            assert(events@.take(i + 1).drop_last() =~= events@.take(i as int));
            match valid_event_bit(events[i]) {
                Some(bit) => {
                    self.0 = self.0 & !bit;
                    let ghost o = old(self)@;
                    assert((o & !rest) & !bit == o & !(rest | bit)) by (bit_vector);
                },
                None => {},
            }
            i = i + 1;
        }
        assert(events@.take(i as int) =~= events@);
        self
    }

    /// Whether `event` is in the mask; `UNKNOWN` and `LAST` never are.
    pub fn is_set(&self, event: Event) -> (r: bool)
        ensures
            r == (is_valid_event(event) && self@ & event_bit(event) != 0),
    {
        match valid_event_bit(event) {
            Some(bit) => (self.0 & bit) != 0,
            None => false,
        }
    }
}

/// The digit `d` (below 16) in lower-case hexadecimal.
pub open spec fn hex_digit(d: int) -> Seq<char> {
    if d == 0 { "0"@ } else if d == 1 { "1"@ } else if d == 2 { "2"@ } else if d == 3 { "3"@ }
    else if d == 4 { "4"@ } else if d == 5 { "5"@ } else if d == 6 { "6"@ } else if d == 7 { "7"@ }
    else if d == 8 { "8"@ } else if d == 9 { "9"@ } else if d == 10 { "a"@ } else if d == 11 { "b"@ }
    else if d == 12 { "c"@ } else if d == 13 { "d"@ } else if d == 14 { "e"@ } else { "f"@ }
}

/// `n` in lower-case hexadecimal, without leading zeros.
pub open spec fn hex_digits(n: nat) -> Seq<char>
    decreases n,
{
    if n < 16 {
        hex_digit(n as int)
    } else {
        hex_digits(n / 16) + hex_digit((n % 16) as int)
    }
}

fn hex_digit_str(d: u32) -> (r: &'static str)
    requires
        d < 16,
    ensures
        r@ == hex_digit(d as int),
{
    if d == 0 { "0" } else if d == 1 { "1" } else if d == 2 { "2" } else if d == 3 { "3" }
    else if d == 4 { "4" } else if d == 5 { "5" } else if d == 6 { "6" } else if d == 7 { "7" }
    else if d == 8 { "8" } else if d == 9 { "9" } else if d == 10 { "a" } else if d == 11 { "b" }
    else if d == 12 { "c" } else if d == 13 { "d" } else if d == 14 { "e" } else { "f" }
}

fn hex_string(n: u32) -> (r: String)
    ensures
        r@ == hex_digits(n as nat),
    decreases n,
{
    if n < 16 {
        String::from_str(hex_digit_str(n))
    } else {
        let mut s = hex_string(n / 16);
        s.append(hex_digit_str(n % 16));
        s
    }
}

/// The names of the events with values `1..v` that `mask` holds.
pub open spec fn set_event_names(mask: i32, v: int) -> Seq<Seq<char>>
    decreases v,
{
    if v <= 1 {
        Seq::empty()
    } else {
        let rest = set_event_names(mask, v - 1);
        let e = spec_event_of((v - 1) as i32)->Some_0;
        if mask & event_bit(e) != 0 {
            rest.push(spec_event_name(e))
        } else {
            rest
        }
    }
}

/// `parts` joined with commas.
pub open spec fn join_commas(parts: Seq<Seq<char>>) -> Seq<char>
    decreases parts.len(),
{
    if parts.len() == 0 {
        Seq::empty()
    } else if parts.len() == 1 {
        parts[0]
    } else {
        join_commas(parts.drop_last()) + ","@ + parts.last()
    }
}

/// The bits of `mask` that belong to no valid event.
pub open spec fn unknown_bits(mask: i32) -> i32 {
    mask & !0x1fffi32
}

/// What `pretty_string` returns: the names of the events in the mask, in
/// order of value, then `unknown(0x..)` with the bits that belong to no
/// event, joined with commas.
pub open spec fn spec_pretty(mask: i32) -> Seq<char> {
    let names = set_event_names(mask, EVENT_LAST_VALUE as int);
    let parts = if unknown_bits(mask) != 0 {
        names.push("unknown(0x"@ + hex_digits(unknown_bits(mask) as u32 as nat) + ")"@)
    } else {
        names
    };
    join_commas(parts)
}

impl EventMask {
    /// A readable list of the events in the mask.
    pub fn pretty_string(&self) -> (r: String)
        ensures
            r@ == spec_pretty(self@),
    {
        let mut out = String::new();
        let mut any = false;
        let mut v: i32 = 1;
        while v < EVENT_LAST_VALUE
            invariant
                1 <= v <= EVENT_LAST_VALUE,
                any == (set_event_names(self@, v as int).len() > 0),
                out@ == join_commas(set_event_names(self@, v as int)),
            decreases EVENT_LAST_VALUE - v,
        {
            let ghost names = set_event_names(self@, v as int);
            match Event::from_i32(v) {
                Some(event) => {
                    if self.is_set(event) {
                        if any {
                            out.append(",");
                        }
                        out.append(event.name());
                        any = true;
                        assert(names.push(spec_event_name(event)).drop_last() =~= names);
                    }
                },
                None => {},
            }
            v = v + 1;
        }
        let remaining = self.0 & !0x1fffi32;
        if remaining != 0 {
            let ghost names = set_event_names(self@, EVENT_LAST_VALUE as int);
            let mut part = String::from_str("unknown(0x");
            let digits = hex_string(#[verifier::truncate] (remaining as u32));
            part.append(digits.as_str());
            part.append(")");
            if any {
                out.append(",");
            }
            out.append(part.as_str());
            assert(names.push(part@).drop_last() =~= names);
        }
        out
    }
}

impl From<i32> for EventMask {
    fn from(value: i32) -> (r: Self) {
        EventMask(value)
    }
}

impl vstd::std_specs::convert::FromSpecImpl<i32> for EventMask {
    open spec fn obeys_from_spec() -> bool {
        true
    }

    closed spec fn from_spec(v: i32) -> EventMask {
        EventMask(v)
    }
}

impl From<EventMask> for i32 {
    fn from(mask: EventMask) -> (r: Self) {
        mask.0
    }
}

impl vstd::std_specs::convert::FromSpecImpl<EventMask> for i32 {
    open spec fn obeys_from_spec() -> bool {
        true
    }

    closed spec fn from_spec(v: EventMask) -> i32 {
        v.0
    }
}

impl std::ops::BitOr for EventMask {
    type Output = Self;

    fn bitor(self, rhs: Self) -> (r: Self) {
        EventMask(self.0 | rhs.0)
    }
}

impl vstd::std_specs::ops::BitOrSpecImpl for EventMask {
    open spec fn obeys_bitor_spec() -> bool {
        true
    }

    open spec fn bitor_req(self, rhs: EventMask) -> bool {
        true
    }

    closed spec fn bitor_spec(self, rhs: EventMask) -> EventMask {
        EventMask(self.0 | rhs.0)
    }
}

impl std::ops::BitAnd for EventMask {
    type Output = Self;

    fn bitand(self, rhs: Self) -> (r: Self) {
        EventMask(self.0 & rhs.0)
    }
}

impl vstd::std_specs::ops::BitAndSpecImpl for EventMask {
    open spec fn obeys_bitand_spec() -> bool {
        true
    }

    open spec fn bitand_req(self, rhs: EventMask) -> bool {
        true
    }

    closed spec fn bitand_spec(self, rhs: EventMask) -> EventMask {
        EventMask(self.0 & rhs.0)
    }
}

impl std::ops::BitOrAssign for EventMask {
    fn bitor_assign(&mut self, rhs: Self) {
        self.0 = self.0 | rhs.0;
    }
}

impl std::ops::BitAndAssign for EventMask {
    fn bitand_assign(&mut self, rhs: Self) {
        self.0 = self.0 & rhs.0;
    }
}

} // verus!
