//! Deployment plans: the steps, what each produces and consumes, and the rule
//! that a step comes after the steps that produce what it consumes.

use vstd::prelude::*;
use crate::topology::{
    constructor_inputs, constructor_inputs_of, index_is_injective, initializer_inputs,
    initializer_inputs_of, Contract, CONTRACT_COUNT,
};

verus! {

/// One transaction of a deployment.
#[derive(Clone, Copy, Debug, PartialEq, Eq, Structural)]
pub enum Step {
    /// Create a contract that stands behind no proxy.
    Deploy { contract: Contract },
    /// Create a proxy that forwards to `implementation` and obeys `admin`;
    /// with `initialize`, the creation also runs the initializer.
    BindProxy { proxy: Contract, implementation: Contract, admin: Contract, initialize: bool },
    /// Have `admin` point `proxy` at `implementation`; with `initialize`, the
    /// same transaction runs the initializer through the proxy.
    Upgrade { proxy: Contract, implementation: Contract, admin: Contract, initialize: bool },
    /// Run the initializer of the implementation behind `proxy`.
    Initialize { proxy: Contract },
    /// Put `strategy` on the deposit whitelist that `manager` keeps.
    Whitelist { manager: Contract, strategy: Contract },
}

/// The contract whose address the step brings into being, if any.
pub open spec fn produces(step: Step) -> Option<Contract> {
    match step {
        Step::Deploy { contract } => Some(contract),
        Step::BindProxy { proxy, .. } => Some(proxy),
        _ => None,
    }
}

/// The contracts whose addresses the step needs, in the order in which the
/// driver is handed them.
pub open spec fn consumes(step: Step) -> Seq<Contract> {
    match step {
        Step::Deploy { contract } => constructor_inputs(contract),
        Step::BindProxy { proxy, implementation, admin, initialize } => seq![implementation, admin]
            + (if initialize {
            initializer_inputs(proxy)
        } else {
            Seq::empty()
        }),
        Step::Upgrade { proxy, implementation, admin, initialize } => seq![
            admin,
            proxy,
            implementation,
        ] + (if initialize {
            initializer_inputs(proxy)
        } else {
            Seq::empty()
        }),
        Step::Initialize { proxy } => seq![proxy] + initializer_inputs(proxy),
        Step::Whitelist { manager, strategy } => seq![manager, strategy],
    }
}

/// Whether one of the first `n` steps of the plan produces `contract`.
pub open spec fn produced_before(plan: Seq<Step>, n: int, contract: Contract) -> bool {
    exists|j: int| 0 <= j < n && j < plan.len() && #[trigger] produces(plan[j]) == Some(contract)
}

/// Whether everything that step `i` consumes is produced by an earlier step.
pub open spec fn step_ready(plan: Seq<Step>, i: int) -> bool {
    forall|k: int|
        0 <= k < consumes(plan[i]).len() ==> produced_before(plan, i, #[trigger] consumes(plan[i])[k])
}

/// Whether every step of the plan comes after the steps it depends on.
pub open spec fn plan_ordered(plan: Seq<Step>) -> bool {
    forall|i: int| 0 <= i < plan.len() ==> #[trigger] step_ready(plan, i)
}

/// The proxy whose initializer the step runs, if it runs one.
pub open spec fn initializes(step: Step) -> Option<Contract> {
    match step {
        Step::BindProxy { proxy, initialize, .. } => if initialize {
            Some(proxy)
        } else {
            None
        },
        Step::Upgrade { proxy, initialize, .. } => if initialize {
            Some(proxy)
        } else {
            None
        },
        Step::Initialize { proxy } => Some(proxy),
        _ => None,
    }
}

/// Whether one of the first `n` steps of the plan runs the initializer of
/// `proxy`.
pub open spec fn initialized_before(plan: Seq<Step>, n: int, proxy: Contract) -> bool {
    exists|j: int| 0 <= j < n && j < plan.len() && #[trigger] initializes(plan[j]) == Some(proxy)
}

/// Whether the plan runs no initializer twice.
pub open spec fn initializes_once(plan: Seq<Step>) -> bool {
    forall|i: int|
        0 <= i < plan.len() && (#[trigger] initializes(plan[i])) is Some ==> !initialized_before(
            plan,
            i,
            initializes(plan[i])->0,
        )
}

/// One more step adds exactly the initializer that the step runs.
pub proof fn initialized_before_grows(plan: Seq<Step>, n: int, proxy: Contract)
    requires
        0 <= n < plan.len(),
    ensures
        initialized_before(plan, n + 1, proxy) <==> (initialized_before(plan, n, proxy)
            || initializes(plan[n]) == Some(proxy)),
{
    if initialized_before(plan, n, proxy) {
        let j = choose|j: int|
            0 <= j < n && j < plan.len() && #[trigger] initializes(plan[j]) == Some(proxy);
        assert(0 <= j < n + 1 && initializes(plan[j]) == Some(proxy));
    }
    if initializes(plan[n]) == Some(proxy) {
        assert(0 <= n < n + 1 && initializes(plan[n]) == Some(proxy));
    }
}

/// One more step adds exactly what that step produces.
pub proof fn produced_before_grows(plan: Seq<Step>, n: int, contract: Contract)
    requires
        0 <= n < plan.len(),
    ensures
        produced_before(plan, n + 1, contract) <==> (produced_before(plan, n, contract) || produces(
            plan[n],
        ) == Some(contract)),
{
    if produced_before(plan, n, contract) {
        let j = choose|j: int|
            0 <= j < n && j < plan.len() && #[trigger] produces(plan[j]) == Some(contract);
        assert(0 <= j < n + 1 && produces(plan[j]) == Some(contract));
    }
    if produces(plan[n]) == Some(contract) {
        assert(0 <= n < n + 1 && produces(plan[n]) == Some(contract));
    }
}

/// The contract that a step produces.
pub fn produced_by(step: Step) -> (result: Option<Contract>)
    ensures
        result == produces(step),
{
    match step {
        Step::Deploy { contract } => Some(contract),
        Step::BindProxy { proxy, .. } => Some(proxy),
        _ => None,
    }
}

/// The proxy whose initializer a step runs.
pub fn initialized_by(step: Step) -> (result: Option<Contract>)
    ensures
        result == initializes(step),
{
    match step {
        Step::BindProxy { proxy, initialize, .. } => if initialize {
            Some(proxy)
        } else {
            None
        },
        Step::Upgrade { proxy, initialize, .. } => if initialize {
            Some(proxy)
        } else {
            None
        },
        Step::Initialize { proxy } => Some(proxy),
        _ => None,
    }
}

fn append_all(list: &mut Vec<Contract>, more: &Vec<Contract>)
    ensures
        final(list)@ == old(list)@ + more@,
{
    let mut i: usize = 0;
    while i < more.len()
        invariant
            i <= more@.len(),
            list@ == old(list)@ + more@.subrange(0, i as int),
        decreases more@.len() - i,
    {
        list.push(more[i]);
        assert(list@ =~= old(list)@ + more@.subrange(0, i + 1));
        i = i + 1;
    }
    assert(more@.subrange(0, i as int) =~= more@);
}

/// The contracts that a step consumes.
pub fn consumed_by(step: Step) -> (result: Vec<Contract>)
    ensures
        result@ == consumes(step),
{
    match step {
        Step::Deploy { contract } => constructor_inputs_of(contract),
        Step::BindProxy { proxy, implementation, admin, initialize } => {
            let mut list = vec![implementation, admin];
            if initialize {
                let more = initializer_inputs_of(proxy);
                append_all(&mut list, &more);
            }
            assert(list@ =~= consumes(step));
            list
        },
        Step::Upgrade { proxy, implementation, admin, initialize } => {
            let mut list = vec![admin, proxy, implementation];
            if initialize {
                let more = initializer_inputs_of(proxy);
                append_all(&mut list, &more);
            }
            assert(list@ =~= consumes(step));
            list
        },
        Step::Initialize { proxy } => {
            let mut list = vec![proxy];
            let more = initializer_inputs_of(proxy);
            append_all(&mut list, &more);
            assert(list@ =~= consumes(step));
            list
        },
        Step::Whitelist { manager, strategy } => {
            let list = vec![manager, strategy];
            assert(list@ =~= consumes(step));
            list
        },
    }
}

/// Marks the rows of the contracts that the first `n` steps of a plan
/// produce.
pub fn produced_rows(plan: &Vec<Step>, n: usize) -> (result: Vec<bool>)
    ensures
        result@.len() == CONTRACT_COUNT,
        forall|c: Contract| #[trigger]
            result@[c.index_spec()] <==> produced_before(plan@, n as int, c),
{
    let mut seen: Vec<bool> = Vec::new();
    let mut r: usize = 0;
    while r < CONTRACT_COUNT
        invariant
            r <= CONTRACT_COUNT,
            seen@.len() == r,
            forall|q: int| 0 <= q < r ==> !seen@[q],
        decreases CONTRACT_COUNT - r,
    {
        seen.push(false);
        r = r + 1;
    }
    let end = if n < plan.len() {
        n
    } else {
        plan.len()
    };
    let mut i: usize = 0;
    while i < end
        invariant
            i <= end <= plan@.len(),
            seen@.len() == CONTRACT_COUNT,
            forall|c: Contract| #[trigger]
                seen@[c.index_spec()] <==> produced_before(plan@, i as int, c),
        decreases end - i,
    {
        match produced_by(plan[i]) {
            Some(made) => {
                seen.set(made.index(), true);
            },
            None => {},
        }
        assert forall|c: Contract| #[trigger]
            seen@[c.index_spec()] <==> produced_before(plan@, i + 1, c) by {
            produced_before_grows(plan@, i as int, c);
            if produces(plan@[i as int]) is Some && c.index_spec() == produces(
                plan@[i as int],
            )->0.index_spec() {
                index_is_injective(c, produces(plan@[i as int])->0);
            }
        }
        i = i + 1;
    }
    assert forall|c: Contract|
        produced_before(plan@, end as int, c) == produced_before(plan@, n as int, c) by {
        if produced_before(plan@, n as int, c) {
            let j = choose|j: int|
                0 <= j < n && j < plan@.len() && #[trigger] produces(plan@[j]) == Some(c);
            assert(0 <= j < end && produces(plan@[j]) == Some(c));
        }
    }
    seen
}

/// Checks a plan's order: every address that a step takes must come from an
/// earlier step.
pub fn is_ordered(plan: &Vec<Step>) -> (result: bool)
    ensures
        result == plan_ordered(plan@),
{
    let mut seen: Vec<bool> = Vec::new();
    let mut n: usize = 0;
    while n < CONTRACT_COUNT
        invariant
            n <= CONTRACT_COUNT,
            seen@.len() == n,
            forall|r: int| 0 <= r < n ==> !seen@[r],
        decreases CONTRACT_COUNT - n,
    {
        seen.push(false);
        n = n + 1;
    }
    let mut i: usize = 0;
    while i < plan.len()
        invariant
            i <= plan@.len(),
            seen@.len() == CONTRACT_COUNT,
            forall|c: Contract| #[trigger]
                seen@[c.index_spec()] <==> produced_before(plan@, i as int, c),
            forall|e: int| 0 <= e < i ==> #[trigger] step_ready(plan@, e),
        decreases plan@.len() - i,
    {
        let step = plan[i];
        let inputs = consumed_by(step);
        let mut k: usize = 0;
        while k < inputs.len()
            invariant
                k <= inputs@.len(),
                i < plan@.len(),
                inputs@ == consumes(plan@[i as int]),
                seen@.len() == CONTRACT_COUNT,
                forall|c: Contract| #[trigger]
                    seen@[c.index_spec()] <==> produced_before(plan@, i as int, c),
                forall|m: int|
                    0 <= m < k ==> produced_before(plan@, i as int, #[trigger] inputs@[m]),
            decreases inputs@.len() - k,
        {
            let needed = inputs[k];
            if !seen[needed.index()] {
                assert(!produced_before(plan@, i as int, consumes(plan@[i as int])[k as int]));
                assert(!step_ready(plan@, i as int));
                return false;
            }
            k = k + 1;
        }
        assert(step_ready(plan@, i as int));
        match produced_by(step) {
            Some(made) => {
                seen.set(made.index(), true);
            },
            None => {},
        }
        assert forall|c: Contract| #[trigger]
            seen@[c.index_spec()] <==> produced_before(plan@, i + 1, c) by {
            produced_before_grows(plan@, i as int, c);
            if produces(step) is Some && c.index_spec() == produces(step)->0.index_spec() {
                index_is_injective(c, produces(step)->0);
            }
        }
        i = i + 1;
    }
    true
}

/// What is produced before a step is produced before every later step.
pub proof fn produced_before_is_monotonic(plan: Seq<Step>, n: int, m: int, contract: Contract)
    requires
        n <= m,
        produced_before(plan, n, contract),
    ensures
        produced_before(plan, m, contract),
{
    let j = choose|j: int|
        0 <= j < n && j < plan.len() && #[trigger] produces(plan[j]) == Some(contract);
    assert(0 <= j < m && produces(plan[j]) == Some(contract));
}

/// Tells whether one of the first `n` steps of a plan runs the initializer
/// of `proxy`.
pub fn runs_initializer_before(plan: &Vec<Step>, n: usize, proxy: Contract) -> (result: bool)
    ensures
        result == initialized_before(plan@, n as int, proxy),
{
    let end = if n < plan.len() {
        n
    } else {
        plan.len()
    };
    let mut i: usize = 0;
    while i < end
        invariant
            i <= end <= plan@.len(),
            end <= n,
            !initialized_before(plan@, i as int, proxy),
        decreases end - i,
    {
        match initialized_by(plan[i]) {
            Some(found) => {
                if found == proxy {
                    assert(0 <= i < n && initializes(plan@[i as int]) == Some(proxy));
                    return true;
                }
            },
            None => {},
        }
        proof {
            initialized_before_grows(plan@, i as int, proxy);
        }
        i = i + 1;
    }
    assert(!initialized_before(plan@, n as int, proxy)) by {
        if initialized_before(plan@, n as int, proxy) {
            let j = choose|j: int|
                0 <= j < n && j < plan@.len() && #[trigger] initializes(plan@[j]) == Some(proxy);
            assert(0 <= j < end && initializes(plan@[j]) == Some(proxy));
        }
    }
    false
}

/// Checks that a plan runs the initializer of no proxy twice.
pub fn has_single_initializers(plan: &Vec<Step>) -> (result: bool)
    ensures
        result == initializes_once(plan@),
{
    let mut seen: Vec<bool> = Vec::new();
    let mut n: usize = 0;
    while n < CONTRACT_COUNT
        invariant
            n <= CONTRACT_COUNT,
            seen@.len() == n,
            forall|r: int| 0 <= r < n ==> !seen@[r],
        decreases CONTRACT_COUNT - n,
    {
        seen.push(false);
        n = n + 1;
    }
    let mut i: usize = 0;
    while i < plan.len()
        invariant
            i <= plan@.len(),
            seen@.len() == CONTRACT_COUNT,
            forall|c: Contract| #[trigger]
                seen@[c.index_spec()] <==> initialized_before(plan@, i as int, c),
            forall|e: int|
                0 <= e < i && (#[trigger] initializes(plan@[e])) is Some ==> !initialized_before(
                    plan@,
                    e,
                    initializes(plan@[e])->0,
                ),
        decreases plan@.len() - i,
    {
        match initialized_by(plan[i]) {
            Some(proxy) => {
                if seen[proxy.index()] {
                    assert(initializes(plan@[i as int]) is Some);
                    assert(initialized_before(plan@, i as int, initializes(plan@[i as int])->0));
                    return false;
                }
                seen.set(proxy.index(), true);
            },
            None => {},
        }
        assert forall|c: Contract| #[trigger]
            seen@[c.index_spec()] <==> initialized_before(plan@, i + 1, c) by {
            initialized_before_grows(plan@, i as int, c);
            if initializes(plan@[i as int]) is Some && c.index_spec() == initializes(
                plan@[i as int],
            )->0.index_spec() {
                index_is_injective(c, initializes(plan@[i as int])->0);
            }
        }
        i = i + 1;
    }
    true
}

} // verus!
