//! The bookkeeping of the weird node, which keeps switching at random
//! between several wave-shaping rules, separately on each channel.
use vstd::prelude::*;
use rand::Rng;

verus! {

/// How many samples, counted in random steps of one to three, a channel
/// keeps its rule before it moves on to another.
pub const RULE_CHANGE_PERIOD: usize = 4410;

/// Draws a whole number uniformly from `low..high` with
/// `rand::thread_rng().gen_range(low..high)`, which panics on an empty range;
/// the contract claims only that the number lies in the range.
#[verifier::external_body]
fn random_in_range(low: usize, high: usize) -> (r: usize)
    requires
        low < high,
    ensures
        low <= r < high,
{
    rand::thread_rng().gen_range(low..high)
}

/// Which rule each of the two channels applies, and how far each channel
/// has counted towards its next change of rule.
#[derive(Clone, Debug)]
pub struct RuleSwitch {
    pub current_rule: [usize; 2],
    pub rule_change_counter: [usize; 2],
}

impl RuleSwitch {
    /// Both channels are on a rule that exists, and neither has counted past
    /// the period.
    pub open spec fn wf(self, rule_count: usize) -> bool {
        &&& self.current_rule[0] < rule_count
        &&& self.current_rule[1] < rule_count
        &&& self.rule_change_counter[0] <= RULE_CHANGE_PERIOD
        &&& self.rule_change_counter[1] <= RULE_CHANGE_PERIOD
    }

    /// `after` is `self` after one sample on `channel` in which the channel
    /// counted `step` more samples and, if that took it past the period,
    /// moved `jump` rules further (wrapping around) and started counting
    /// again; the other channel is unchanged.
    pub open spec fn advanced(self, after: Self, channel: int, rule_count: int, step: int, jump: int) -> bool {
        &&& after.current_rule[1 - channel] == self.current_rule[1 - channel]
        &&& after.rule_change_counter[1 - channel] == self.rule_change_counter[1 - channel]
        &&& self.rule_change_counter[channel] + step > RULE_CHANGE_PERIOD ==> {
            &&& after.current_rule[channel] == (self.current_rule[channel] + jump) % rule_count
            &&& after.rule_change_counter[channel] == 0
        }
        &&& self.rule_change_counter[channel] + step <= RULE_CHANGE_PERIOD ==> {
            &&& after.current_rule[channel] == self.current_rule[channel]
            &&& after.rule_change_counter[channel] == self.rule_change_counter[channel] + step
        }
    }

    /// Both channels start on the first rule, with nothing counted.
    pub fn new() -> (r: Self)
        ensures
            r.current_rule == [0usize, 0usize],
            r.rule_change_counter == [0usize, 0usize],
            forall|n: usize| n > 0 ==> r.wf(n),
    {
        RuleSwitch { current_rule: [0, 0], rule_change_counter: [0, 0] }
    }

    /// One sample on `channel`, with the random draws given: the channel
    /// counts `step` more samples; once past the period it moves `jump`
    /// rules further (wrapping around) and starts counting again. Returns
    /// the rule the channel now applies.
    pub fn advance_with(&mut self, channel: usize, rule_count: usize, step: usize, jump: usize) -> (r: usize)
        requires
            channel < 2,
            old(self).wf(rule_count),
            rule_count <= usize::MAX - 3,
            1 <= step < 4,
            1 <= jump < 4,
        ensures
            final(self).wf(rule_count),
            r == final(self).current_rule[channel as int],
            old(self).advanced(*final(self), channel as int, rule_count as int, step as int, jump as int),
    {
        let counted = self.rule_change_counter[channel] + step;
        if counted > RULE_CHANGE_PERIOD {
            let next = (self.current_rule[channel] + jump) % rule_count;
            self.current_rule[channel] = next;
            self.rule_change_counter[channel] = 0;
        } else {
            self.rule_change_counter[channel] = counted;
        }
        self.current_rule[channel]
    }

    /// One sample on `channel`, with fresh random draws of one to three for
    /// the count and for the jump. Whatever is drawn, the channel ends on a
    /// rule that exists, and the change is the one `advance_with` makes for
    /// some draws between one and three.
    pub fn advance(&mut self, channel: usize, rule_count: usize) -> (r: usize)
        requires
            channel < 2,
            old(self).wf(rule_count),
            rule_count <= usize::MAX - 3,
        ensures
            final(self).wf(rule_count),
            r == final(self).current_rule[channel as int],
            r < rule_count,
            exists|step: int, jump: int|
                1 <= step < 4 && 1 <= jump < 4 && old(self).advanced(
                    *final(self),
                    channel as int,
                    rule_count as int,
                    step,
                    jump,
                ),
    {
        let step = random_in_range(1, 4);
        let jump = random_in_range(1, 4);
        let r = self.advance_with(channel, rule_count, step, jump);
        assert(old(self).advanced(*self, channel as int, rule_count as int, step as int, jump as int));
        r
    }
}

} // verus!
