//! What the steps of the machine and the built-in functions cost.
use vstd::prelude::*;
use crate::uplc::builtins::DefaultFunction;

verus! {

/// An amount of memory and of processor time.
#[derive(Clone, Copy, Debug, PartialEq, Eq, Structural)]
pub struct ExBudget {
    pub mem: i64,
    pub cpu: i64,
}

impl Default for ExBudget {
    /// The budget of an evaluation for which none was chosen.
    fn default() -> (r: ExBudget)
        ensures
            r == (ExBudget { mem: 14000000, cpu: 10000000000 }),
    {
        ExBudget { mem: 14000000, cpu: 10000000000 }
    }
}

/// The budget of an evaluation for which none was chosen.
pub open spec fn default_budget() -> ExBudget {
    ExBudget { mem: 14000000, cpu: 10000000000 }
}

/// A cost, which has no upper bound.
pub struct Cost {
    pub mem: nat,
    pub cpu: nat,
}

impl ExBudget {
    pub fn new(mem: i64, cpu: i64) -> (r: ExBudget)
        ensures
            r == (ExBudget { mem, cpu }),
    {
        ExBudget { mem, cpu }
    }

    /// Whether neither amount is negative.
    pub open spec fn valid(self) -> bool {
        self.mem >= 0 && self.cpu >= 0
    }

    /// Whether the budget has at least `cost` left.
    pub open spec fn affords(self, cost: Cost) -> bool {
        cost.mem <= self.mem && cost.cpu <= self.cpu
    }

    /// What is left of the budget after `cost` was spent.
    pub open spec fn minus(self, cost: Cost) -> ExBudget {
        ExBudget { mem: (self.mem - cost.mem) as i64, cpu: (self.cpu - cost.cpu) as i64 }
    }

    /// Spends `cpu` and `mem`, which stand for any larger cost where they
    /// are the largest numbers of their type. Gives whether the budget
    /// afforded the cost; where it did not, it is unchanged.
    pub fn spend(&mut self, mem: u64, cpu: u64) -> (spent: bool)
        requires
            old(self).valid(),
        ensures
            spent == (mem <= old(self).mem && cpu <= old(self).cpu),
            spent ==> *final(self) == old(self).minus(Cost { mem: mem as nat, cpu: cpu as nat }),
            !spent ==> *final(self) == *old(self),
            final(self).valid(),
    {
        if mem > self.mem as u64 || cpu > self.cpu as u64 {
            false
        } else {
            self.mem = self.mem - mem as i64;
            self.cpu = self.cpu - cpu as i64;
            true
        }
    }
}

/// What the machine spends before its first step.
pub open spec fn startup_cost() -> Cost {
    Cost { mem: 100, cpu: 100 }
}

/// What the machine spends on each term that it evaluates, whatever the
/// term is.
pub open spec fn step_cost() -> Cost {
    Cost { mem: 100, cpu: 23000 }
}

/// The cost of a built-in function grows with the size of its arguments:
/// it is `base + slope * size` in each of memory and processor time.
#[derive(Clone, Copy, Debug, PartialEq, Eq, Structural)]
pub struct CostParameters {
    pub mem_base: u64,
    pub mem_slope: u64,
    pub cpu_base: u64,
    pub cpu_slope: u64,
}

pub open spec fn spec_parameters(fun: DefaultFunction) -> CostParameters {
    match fun {
        DefaultFunction::AddInteger | DefaultFunction::SubtractInteger => CostParameters {
            mem_base: 1,
            mem_slope: 1,
            cpu_base: 205665,
            cpu_slope: 812,
        },
        DefaultFunction::MultiplyInteger => CostParameters {
            mem_base: 0,
            mem_slope: 1,
            cpu_base: 69522,
            cpu_slope: 11687,
        },
        DefaultFunction::EqualsInteger
        | DefaultFunction::LessThanInteger
        | DefaultFunction::LessThanEqualsInteger => CostParameters {
            mem_base: 1,
            mem_slope: 0,
            cpu_base: 208512,
            cpu_slope: 421,
        },
        DefaultFunction::AppendByteString | DefaultFunction::ConsByteString => CostParameters {
            mem_base: 0,
            mem_slope: 1,
            cpu_base: 1000,
            cpu_slope: 571,
        },
        DefaultFunction::LengthOfByteString | DefaultFunction::IndexByteString => CostParameters {
            mem_base: 10,
            mem_slope: 0,
            cpu_base: 57667,
            cpu_slope: 0,
        },
        DefaultFunction::EqualsByteString
        | DefaultFunction::LessThanByteString
        | DefaultFunction::LessThanEqualsByteString => CostParameters {
            mem_base: 1,
            mem_slope: 0,
            cpu_base: 216773,
            cpu_slope: 62,
        },
        DefaultFunction::AppendString => CostParameters {
            mem_base: 4,
            mem_slope: 1,
            cpu_base: 1000,
            cpu_slope: 24177,
        },
        DefaultFunction::EqualsString => CostParameters {
            mem_base: 1,
            mem_slope: 0,
            cpu_base: 1000,
            cpu_slope: 52998,
        },
        DefaultFunction::IfThenElse => CostParameters {
            mem_base: 1,
            mem_slope: 0,
            cpu_base: 80556,
            cpu_slope: 0,
        },
        DefaultFunction::ChooseUnit => CostParameters {
            mem_base: 4,
            mem_slope: 0,
            cpu_base: 46417,
            cpu_slope: 0,
        },
        DefaultFunction::Trace => CostParameters {
            mem_base: 32,
            mem_slope: 0,
            cpu_base: 212342,
            cpu_slope: 0,
        },
        _ => CostParameters { mem_base: 32, mem_slope: 0, cpu_base: 80436, cpu_slope: 0 },
    }
}

/// The cost of the function `fun` on arguments whose sizes add up to
/// `size`.
pub open spec fn builtin_cost(fun: DefaultFunction, size: nat) -> Cost {
    let p = spec_parameters(fun);
    Cost {
        mem: (p.mem_base + p.mem_slope * size) as nat,
        cpu: (p.cpu_base + p.cpu_slope * size) as nat,
    }
}

pub fn parameters(fun: DefaultFunction) -> (p: CostParameters)
    ensures
        p == spec_parameters(fun),
{
    match fun {
        DefaultFunction::AddInteger | DefaultFunction::SubtractInteger => CostParameters {
            mem_base: 1,
            mem_slope: 1,
            cpu_base: 205665,
            cpu_slope: 812,
        },
        DefaultFunction::MultiplyInteger => CostParameters {
            mem_base: 0,
            mem_slope: 1,
            cpu_base: 69522,
            cpu_slope: 11687,
        },
        DefaultFunction::EqualsInteger
        | DefaultFunction::LessThanInteger
        | DefaultFunction::LessThanEqualsInteger => CostParameters {
            mem_base: 1,
            mem_slope: 0,
            cpu_base: 208512,
            cpu_slope: 421,
        },
        DefaultFunction::AppendByteString | DefaultFunction::ConsByteString => CostParameters {
            mem_base: 0,
            mem_slope: 1,
            cpu_base: 1000,
            cpu_slope: 571,
        },
        DefaultFunction::LengthOfByteString | DefaultFunction::IndexByteString => CostParameters {
            mem_base: 10,
            mem_slope: 0,
            cpu_base: 57667,
            cpu_slope: 0,
        },
        DefaultFunction::EqualsByteString
        | DefaultFunction::LessThanByteString
        | DefaultFunction::LessThanEqualsByteString => CostParameters {
            mem_base: 1,
            mem_slope: 0,
            cpu_base: 216773,
            cpu_slope: 62,
        },
        DefaultFunction::AppendString => CostParameters {
            mem_base: 4,
            mem_slope: 1,
            cpu_base: 1000,
            cpu_slope: 24177,
        },
        DefaultFunction::EqualsString => CostParameters {
            mem_base: 1,
            mem_slope: 0,
            cpu_base: 1000,
            cpu_slope: 52998,
        },
        DefaultFunction::IfThenElse => CostParameters {
            mem_base: 1,
            mem_slope: 0,
            cpu_base: 80556,
            cpu_slope: 0,
        },
        DefaultFunction::ChooseUnit => CostParameters {
            mem_base: 4,
            mem_slope: 0,
            cpu_base: 46417,
            cpu_slope: 0,
        },
        DefaultFunction::Trace => CostParameters {
            mem_base: 32,
            mem_slope: 0,
            cpu_base: 212342,
            cpu_slope: 0,
        },
        _ => CostParameters { mem_base: 32, mem_slope: 0, cpu_base: 80436, cpu_slope: 0 },
    }
}

} // verus!
