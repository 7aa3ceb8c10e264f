//! Canonical cross-market types: instrument type, side, order type and the
//! order / strategy lifecycle state machines.

use vstd::prelude::*;

verus! {

/// Product type of an instrument.
#[derive(Debug, Clone, Copy, PartialEq, Eq, Hash, Structural)]
pub enum InstType {
    Spot,
    Swap,
    Futures,
    Option_,
    Margin,
}

/// What `str::to_uppercase` returns for a string (Unicode upper-casing).
pub uninterp spec fn spec_to_uppercase(s: Seq<char>) -> Seq<char>;

/// ASCII upper-casing of one character.
pub open spec fn ascii_upper_char(c: char) -> char {
    if 'a' <= c && c <= 'z' {
        ((c as u32) - 32) as char
    } else {
        c
    }
}

/// ASCII upper-casing of a character sequence.
pub open spec fn ascii_upper(s: Seq<char>) -> Seq<char> {
    Seq::new(s.len(), |i: int| ascii_upper_char(s[i]))
}

/// ASCII lower-casing of one character.
pub open spec fn ascii_lower_char(c: char) -> char {
    if 'A' <= c && c <= 'Z' {
        ((c as u32) + 32) as char
    } else {
        c
    }
}

/// ASCII lower-casing of a character sequence.
pub open spec fn ascii_lower(s: Seq<char>) -> Seq<char> {
    Seq::new(s.len(), |i: int| ascii_lower_char(s[i]))
}

/// Upper-casing a lower-cased ASCII character gives the character's upper
/// case.
proof fn lemma_upper_of_lower_char(c: char)
    ensures
        ascii_upper_char(ascii_lower_char(c)) == ascii_upper_char(c),
{
    if 'A' <= c && c <= 'Z' {
        let l = ((c as u32) + 32) as char;
        assert(l as u32 == (c as u32) + 32);
        assert(((l as u32) - 32) as char == c);
    }
}

/// Wire names are read without regard to case: an ASCII text and its
/// lower-cased form name the same instrument type.
pub proof fn lemma_from_wire_ignores_case(s: Seq<char>)
    requires
        vstd::utf8::is_ascii_chars(s),
    ensures
        vstd::utf8::is_ascii_chars(ascii_lower(s)),
        inst_type_from_upper(ascii_upper(ascii_lower(s))) == inst_type_from_upper(ascii_upper(s)),
{
    assert forall|i: int| 0 <= i < s.len() implies ascii_upper(ascii_lower(s))[i] == ascii_upper(s)[i] by {
        lemma_upper_of_lower_char(s[i]);
    }
    assert(ascii_upper(ascii_lower(s)) =~= ascii_upper(s));
    assert forall|i: int| 0 <= i < ascii_lower(s).len() implies '\0' <= #[trigger] ascii_lower(s)[i] <= '\u{7f}' by {
        let c = s[i];
        assert('\0' <= c <= '\u{7f}');
        if 'A' <= c && c <= 'Z' {
            assert((((c as u32) + 32) as char) as u32 == (c as u32) + 32);
        }
    }
}

/// Calls `str::to_uppercase`. Its result is named `spec_to_uppercase`; for
/// an all-ASCII input the Unicode upper-case mapping is the ASCII one.
#[verifier::external_body]
pub(crate) fn str_to_uppercase(s: &str) -> (res: String)
    ensures
        res@ == spec_to_uppercase(s@),
        vstd::utf8::is_ascii_chars(s@) ==> res@ == ascii_upper(s@),
{
    s.to_uppercase()
}

} // verus!

verus! {

/// Instrument type named by an already upper-cased wire string.
pub open spec fn inst_type_from_upper(u: Seq<char>) -> Option<InstType> {
    if u == "SPOT"@ {
        Some(InstType::Spot)
    } else if u == "SWAP"@ || u == "PERP"@ || u == "PERPETUAL"@ {
        Some(InstType::Swap)
    } else if u == "FUTURES"@ || u == "FUTURE"@ {
        Some(InstType::Futures)
    } else if u == "OPTION"@ || u == "OPTIONS"@ {
        Some(InstType::Option_)
    } else if u == "MARGIN"@ {
        Some(InstType::Margin)
    } else {
        None
    }
}

impl InstType {
    /// Display name of the instrument type.
    pub open spec fn spec_name(self) -> Seq<char> {
        match self {
            InstType::Spot => "SPOT"@,
            InstType::Swap => "SWAP"@,
            InstType::Futures => "FUTURES"@,
            InstType::Option_ => "OPTION"@,
            InstType::Margin => "MARGIN"@,
        }
    }

    /// Parse an instrument type from its wire name, case-insensitively.
    pub fn from_wire(s: &str) -> (res: Option<InstType>)
        ensures
            res == inst_type_from_upper(spec_to_uppercase(s@)),
            vstd::utf8::is_ascii_chars(s@) ==> res == inst_type_from_upper(ascii_upper(s@)),
    {
        let up = str_to_uppercase(s);
        InstType::from_upper(up.as_str())
    }

    /// Instrument type named by an already upper-cased wire name.
    pub fn from_upper(u: &str) -> (res: Option<InstType>)
        ensures
            res == inst_type_from_upper(u@),
    {
        if crate::text::text_eq(u, "SPOT") {
            Some(InstType::Spot)
        } else if crate::text::text_eq(u, "SWAP") || crate::text::text_eq(u, "PERP")
            || crate::text::text_eq(u, "PERPETUAL") {
            Some(InstType::Swap)
        } else if crate::text::text_eq(u, "FUTURES") || crate::text::text_eq(u, "FUTURE") {
            Some(InstType::Futures)
        } else if crate::text::text_eq(u, "OPTION") || crate::text::text_eq(u, "OPTIONS") {
            Some(InstType::Option_)
        } else if crate::text::text_eq(u, "MARGIN") {
            Some(InstType::Margin)
        } else {
            None
        }
    }

    /// Display name of the instrument type.
    pub fn name(&self) -> (r: &'static str)
        ensures
            r@ == self.spec_name(),
    {
        match self {
            InstType::Spot => "SPOT",
            InstType::Swap => "SWAP",
            InstType::Futures => "FUTURES",
            InstType::Option_ => "OPTION",
            InstType::Margin => "MARGIN",
        }
    }
}

/// Parsing the display name of an instrument type gives the type back.
pub proof fn lemma_inst_type_name_roundtrip(t: InstType)
    ensures
        vstd::utf8::is_ascii_chars(t.spec_name()),
        inst_type_from_upper(ascii_upper(t.spec_name())) == Some(t),
{
    reveal_strlit("SPOT");
    reveal_strlit("SWAP");
    reveal_strlit("PERP");
    reveal_strlit("PERPETUAL");
    reveal_strlit("FUTURES");
    reveal_strlit("FUTURE");
    reveal_strlit("OPTION");
    reveal_strlit("OPTIONS");
    reveal_strlit("MARGIN");
    let n = t.spec_name();
    assert(ascii_upper(n) =~= n);
    match t {
        InstType::Spot => {},
        InstType::Swap => {
            assert("SWAP"@[1] != "SPOT"@[1]);
        },
        InstType::Futures => {
            assert("FUTURES"@.len() != "SPOT"@.len());
            assert("FUTURES"@[0] != "SWAP"@[0]);
            assert("FUTURES"@.len() != "PERP"@.len());
            assert("FUTURES"@.len() != "PERPETUAL"@.len());
        },
        InstType::Option_ => {
            assert("OPTION"@.len() != "SPOT"@.len());
            assert("OPTION"@.len() != "SWAP"@.len());
            assert("OPTION"@.len() != "PERP"@.len());
            assert("OPTION"@.len() != "PERPETUAL"@.len());
            assert("OPTION"@.len() != "FUTURES"@.len());
            assert("OPTION"@[0] != "FUTURE"@[0]);
        },
        InstType::Margin => {
            assert("MARGIN"@.len() != "SPOT"@.len());
            assert("MARGIN"@.len() != "SWAP"@.len());
            assert("MARGIN"@.len() != "PERP"@.len());
            assert("MARGIN"@.len() != "PERPETUAL"@.len());
            assert("MARGIN"@.len() != "FUTURES"@.len());
            assert("MARGIN"@[0] != "FUTURE"@[0]);
            assert("MARGIN"@[0] != "OPTION"@[0]);
            assert("MARGIN"@.len() != "OPTIONS"@.len());
        },
    }
}

/// Order side.
#[derive(Debug, Clone, Copy, PartialEq, Eq, Hash, Structural)]
pub enum OrderSide {
    Buy,
    Sell,
}

impl OrderSide {
    /// Side from a buy flag.
    pub fn from_bool(is_buy: bool) -> (r: OrderSide)
        ensures
            r == (if is_buy { OrderSide::Buy } else { OrderSide::Sell }),
    {
        if is_buy {
            OrderSide::Buy
        } else {
            OrderSide::Sell
        }
    }

    /// Whether this is the buy side.
    pub fn is_buy(&self) -> (r: bool)
        ensures
            r == (*self == OrderSide::Buy),
    {
        match self {
            OrderSide::Buy => true,
            OrderSide::Sell => false,
        }
    }

    /// Whether this is the sell side.
    pub fn is_sell(&self) -> (r: bool)
        ensures
            r == (*self == OrderSide::Sell),
    {
        match self {
            OrderSide::Buy => false,
            OrderSide::Sell => true,
        }
    }
}

/// A side made from a buy flag reports that flag back, and exactly one of
/// `is_buy` / `is_sell` holds for every side.
pub proof fn lemma_side_from_bool_roundtrip(b: bool, s: OrderSide)
    ensures
        (if b { OrderSide::Buy } else { OrderSide::Sell } == OrderSide::Buy) == b,
        (s == OrderSide::Buy) != (s == OrderSide::Sell),
{
}

/// Order type.
#[derive(Debug, Clone, Copy, PartialEq, Eq, Hash, Structural)]
pub enum OrderType {
    Market,
    Limit,
    PostOnly,
    Fok,
    Ioc,
}

impl OrderType {
    /// Time-in-force wire string of the order type.
    pub open spec fn spec_tif(self) -> Seq<char> {
        match self {
            OrderType::Limit => "Gtc"@,
            OrderType::PostOnly => "Alo"@,
            OrderType::Ioc => "Ioc"@,
            OrderType::Market => "Ioc"@,
            OrderType::Fok => "Ioc"@,
        }
    }

    /// Time-in-force wire string (`Gtc`, `Alo` or `Ioc`); market and
    /// fill-or-kill orders are sent as immediate-or-cancel.
    pub fn tif_str(&self) -> (r: &'static str)
        ensures
            r@ == self.spec_tif(),
    {
        match self {
            OrderType::Limit => "Gtc",
            OrderType::PostOnly => "Alo",
            OrderType::Ioc => "Ioc",
            OrderType::Market => "Ioc",
            OrderType::Fok => "Ioc",
        }
    }
}

/// A state machine whose legal moves are given by a fixed table.
pub trait StateMachine: Sized {
    /// No move leaves this state.
    spec fn spec_is_terminal(&self) -> bool;

    /// The table allows moving from `self` to `next`.
    spec fn spec_can_transition_to(&self, next: &Self) -> bool;

    /// Display name of the state.
    spec fn spec_state_name(&self) -> Seq<char>;

    /// Whether the state is terminal.
    fn is_terminal(&self) -> (r: bool)
        ensures
            r == self.spec_is_terminal(),
    ;

    /// Whether the table allows moving from `self` to `next`.
    fn can_transition_to(&self, next: &Self) -> (r: bool)
        ensures
            r == self.spec_can_transition_to(next),
    ;

    /// `Ok(next)` when the move is allowed, else the error text
    /// `invalid transition`.
    fn transition_to(&self, next: Self) -> (r: Result<Self, String>)
        ensures
            self.spec_can_transition_to(&next) ==> r == Ok::<Self, String>(next),
            !self.spec_can_transition_to(&next) ==> (r is Err && r->Err_0@ == "invalid transition"@),
    {
        if self.can_transition_to(&next) {
            Ok(next)
        } else {
            Err("invalid transition".to_owned())
        }
    }

    /// Display name of the state.
    fn state_name(&self) -> (r: &'static str)
        ensures
            r@ == self.spec_state_name(),
    ;
}

/// Order lifecycle state.
#[derive(Debug, Clone, Copy, PartialEq, Eq, Hash, Structural)]
pub enum OrderState {
    Unspecified,
    New,
    Posted,
    PartialFilled,
    Filled,
    PartialCanceled,
    Canceled,
    Rejected,
    Expired,
    Unknown,
    PendingCancel,
}

/// The order lifecycle table.
pub open spec fn order_move_allowed(from: OrderState, to: OrderState) -> bool {
    match from {
        OrderState::Unspecified => to == OrderState::New,
        OrderState::New => to == OrderState::Posted || to == OrderState::Rejected,
        OrderState::Posted => to == OrderState::PartialFilled || to == OrderState::Filled
            || to == OrderState::Canceled || to == OrderState::Rejected
            || to == OrderState::Expired || to == OrderState::PendingCancel,
        OrderState::PartialFilled => to == OrderState::PartialFilled || to == OrderState::Filled
            || to == OrderState::PartialCanceled || to == OrderState::Canceled
            || to == OrderState::PendingCancel,
        OrderState::PendingCancel => to == OrderState::PartialCanceled || to
            == OrderState::Canceled || to == OrderState::PartialFilled || to == OrderState::Filled,
        _ => false,
    }
}

impl StateMachine for OrderState {
    open spec fn spec_is_terminal(&self) -> bool {
        *self == OrderState::Filled || *self == OrderState::PartialCanceled || *self
            == OrderState::Canceled || *self == OrderState::Rejected || *self
            == OrderState::Expired || *self == OrderState::Unknown
    }

    open spec fn spec_can_transition_to(&self, next: &Self) -> bool {
        order_move_allowed(*self, *next)
    }

    open spec fn spec_state_name(&self) -> Seq<char> {
        match *self {
            OrderState::Unspecified => "UNSPECIFIED"@,
            OrderState::New => "NEW"@,
            OrderState::Posted => "POSTED"@,
            OrderState::PartialFilled => "PARTIAL_FILLED"@,
            OrderState::Filled => "FILLED"@,
            OrderState::PartialCanceled => "PARTIAL_CANCELED"@,
            OrderState::Canceled => "CANCELED"@,
            OrderState::Rejected => "REJECTED"@,
            OrderState::Expired => "EXPIRED"@,
            OrderState::Unknown => "UNKNOWN"@,
            OrderState::PendingCancel => "PENDING_CANCEL"@,
        }
    }

    fn is_terminal(&self) -> (r: bool) {
        match self {
            OrderState::Filled | OrderState::PartialCanceled | OrderState::Canceled
            | OrderState::Rejected | OrderState::Expired | OrderState::Unknown => true,
            _ => false,
        }
    }

    fn can_transition_to(&self, next: &Self) -> (r: bool) {
        match self {
            OrderState::Unspecified => matches!(next, OrderState::New),
            OrderState::New => matches!(next, OrderState::Posted | OrderState::Rejected),
            OrderState::Posted => matches!(
                next,
                OrderState::PartialFilled | OrderState::Filled | OrderState::Canceled
                    | OrderState::Rejected | OrderState::Expired | OrderState::PendingCancel
            ),
            OrderState::PartialFilled => matches!(
                next,
                OrderState::PartialFilled | OrderState::Filled | OrderState::PartialCanceled
                    | OrderState::Canceled | OrderState::PendingCancel
            ),
            OrderState::PendingCancel => matches!(
                next,
                OrderState::PartialCanceled | OrderState::Canceled | OrderState::PartialFilled
                    | OrderState::Filled
            ),
            _ => false,
        }
    }

    fn state_name(&self) -> (r: &'static str) {
        match self {
            OrderState::Unspecified => "UNSPECIFIED",
            OrderState::New => "NEW",
            OrderState::Posted => "POSTED",
            OrderState::PartialFilled => "PARTIAL_FILLED",
            OrderState::Filled => "FILLED",
            OrderState::PartialCanceled => "PARTIAL_CANCELED",
            OrderState::Canceled => "CANCELED",
            OrderState::Rejected => "REJECTED",
            OrderState::Expired => "EXPIRED",
            OrderState::Unknown => "UNKNOWN",
            OrderState::PendingCancel => "PENDING_CANCEL",
        }
    }
}

/// A terminal order state has no legal successor, and every state that is
/// not terminal has at least one.
pub proof fn lemma_order_terminal_iff_no_successor(s: OrderState)
    ensures
        s.spec_is_terminal() <==> (forall|n: OrderState| !s.spec_can_transition_to(&n)),
{
    if !s.spec_is_terminal() {
        let w = match s {
            OrderState::Unspecified => OrderState::New,
            OrderState::New => OrderState::Posted,
            _ => OrderState::Filled,
        };
        assert(s.spec_can_transition_to(&w));
    }
}

/// Strategy lifecycle state.
#[derive(Debug, Clone, Copy, PartialEq, Eq, Hash, Structural)]
pub enum StrategyGeneState {
    Sandbox,
    Probation,
    Core,
    Retired,
}

impl StateMachine for StrategyGeneState {
    open spec fn spec_is_terminal(&self) -> bool {
        *self == StrategyGeneState::Retired
    }

    open spec fn spec_can_transition_to(&self, next: &Self) -> bool {
        match *self {
            StrategyGeneState::Sandbox => *next == StrategyGeneState::Probation,
            StrategyGeneState::Probation => *next == StrategyGeneState::Core || *next
                == StrategyGeneState::Sandbox,
            StrategyGeneState::Core => *next == StrategyGeneState::Probation || *next
                == StrategyGeneState::Retired,
            StrategyGeneState::Retired => false,
        }
    }

    open spec fn spec_state_name(&self) -> Seq<char> {
        match *self {
            StrategyGeneState::Sandbox => "SANDBOX"@,
            StrategyGeneState::Probation => "PROBATION"@,
            StrategyGeneState::Core => "CORE"@,
            StrategyGeneState::Retired => "RETIRED"@,
        }
    }

    fn is_terminal(&self) -> (r: bool) {
        matches!(self, StrategyGeneState::Retired)
    }

    fn can_transition_to(&self, next: &Self) -> (r: bool) {
        match self {
            StrategyGeneState::Sandbox => matches!(next, StrategyGeneState::Probation),
            StrategyGeneState::Probation => matches!(
                next,
                StrategyGeneState::Core | StrategyGeneState::Sandbox
            ),
            StrategyGeneState::Core => matches!(
                next,
                StrategyGeneState::Probation | StrategyGeneState::Retired
            ),
            StrategyGeneState::Retired => false,
        }
    }

    fn state_name(&self) -> (r: &'static str) {
        match self {
            StrategyGeneState::Sandbox => "SANDBOX",
            StrategyGeneState::Probation => "PROBATION",
            StrategyGeneState::Core => "CORE",
            StrategyGeneState::Retired => "RETIRED",
        }
    }
}

/// A terminal strategy state has no legal successor, and every other
/// strategy state has at least one.
pub proof fn lemma_strategy_terminal_iff_no_successor(s: StrategyGeneState)
    ensures
        s.spec_is_terminal() <==> (forall|n: StrategyGeneState| !s.spec_can_transition_to(&n)),
{
    if !s.spec_is_terminal() {
        let w = match s {
            StrategyGeneState::Sandbox => StrategyGeneState::Probation,
            _ => StrategyGeneState::Probation,
        };
        let w2 = if s == StrategyGeneState::Probation { StrategyGeneState::Core } else { w };
        assert(s.spec_can_transition_to(&w2));
    }
}

} // verus!
