use crate::text::amount_text;
use crate::text::push_amount;
use vstd::prelude::*;
use vstd::std_specs::ops::AddSpecImpl;
use vstd::std_specs::ops::NegSpecImpl;

verus! {

/// A decimal amount with exactly four fractional digits, held as the amount
/// multiplied by 10,000.
#[derive(Debug, PartialEq, PartialOrd, Clone, Copy, Structural)]
pub struct FixedFloat(pub i64);

impl View for FixedFloat {
    type V = int;

    /// The amount in ten-thousandths.
    open spec fn view(&self) -> int {
        self.0 as int
    }
}

impl FixedFloat {
    /// Whether `v` ten-thousandths can be held by a `FixedFloat`.
    pub open spec fn representable(v: int) -> bool {
        i64::MIN <= v <= i64::MAX
    }

    /// The amount as decimal text: the whole part, and the fractional part
    /// without trailing zeros where it is not zero.
    pub fn to_string(&self) -> (s: String)
        ensures
            s@ == amount_text(self@),
    {
        let mut s = String::new();
        push_amount(&mut s, self.0 as i128);
        s
    }
}

impl Default for FixedFloat {
    fn default() -> (zero: Self)
        ensures
            zero@ == 0,
    {
        FixedFloat(0)
    }
}

impl std::ops::Add for FixedFloat {
    type Output = Self;

    fn add(self, other: Self) -> (sum: Self)
        ensures
            sum@ == self@ + other@,
    {
        FixedFloat(self.0 + other.0)
    }
}

impl AddSpecImpl for FixedFloat {
    open spec fn obeys_add_spec() -> bool {
        true
    }

    open spec fn add_req(self, other: Self) -> bool {
        FixedFloat::representable(self@ + other@)
    }

    open spec fn add_spec(self, other: Self) -> Self {
        FixedFloat((self.0 + other.0) as i64)
    }
}

impl std::ops::Neg for FixedFloat {
    type Output = Self;

    fn neg(self) -> (negated: Self)
        ensures
            negated@ == -self@,
    {
        FixedFloat(-self.0)
    }
}

impl NegSpecImpl for FixedFloat {
    open spec fn obeys_neg_spec() -> bool {
        true
    }

    open spec fn neg_req(self) -> bool {
        FixedFloat::representable(-self@)
    }

    open spec fn neg_spec(self) -> Self {
        FixedFloat((-self.0) as i64)
    }
}

impl std::ops::AddAssign for FixedFloat {
    fn add_assign(&mut self, other: Self)
        requires
            FixedFloat::representable(old(self)@ + other@),
        ensures
            final(self)@ == old(self)@ + other@,
    {
        self.0 = self.0 + other.0;
    }
}

impl std::ops::SubAssign for FixedFloat {
    fn sub_assign(&mut self, other: Self)
        requires
            FixedFloat::representable(old(self)@ - other@),
        ensures
            final(self)@ == old(self)@ - other@,
    {
        self.0 = self.0 - other.0;
    }
}

} // verus!
