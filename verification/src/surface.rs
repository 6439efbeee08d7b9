//! From a batch of option records to the smiles of a surface, one for each
//! expiry.

use vstd::prelude::*;

use crate::option_instrument::OptionInstrument;
use crate::smile_graph::admitted;
use crate::smile_graph::SmileGraph;
use crate::smile_graph::SMILE_MIN_OPTIONS_REQUIRED;

verus! {

/// The distinct expiries of the options, in the order in which each first
/// occurs.
pub open spec fn expiries_in_order(options: Seq<OptionInstrument>) -> Seq<i64>
    decreases options.len(),
{
    if options.len() == 0 {
        Seq::empty()
    } else {
        let earlier = expiries_in_order(options.drop_last());
        if earlier.contains(options.last().expiration()) {
            earlier
        } else {
            earlier.push(options.last().expiration())
        }
    }
}

/// The options that expire at the given time, in their order.
pub open spec fn expiring_at(options: Seq<OptionInstrument>, expiration: i64) -> Seq<
    OptionInstrument,
>
    decreases options.len(),
{
    if options.len() == 0 {
        Seq::empty()
    } else {
        let earlier = expiring_at(options.drop_last(), expiration);
        if options.last().expiration() == expiration {
            earlier.push(options.last())
        } else {
            earlier
        }
    }
}

/// The groups as sequences of options.
pub open spec fn groups_of(grouped: Seq<Vec<OptionInstrument>>) -> Seq<Seq<OptionInstrument>> {
    Seq::new(grouped.len(), |i: int| grouped[i]@)
}

/// The members of the smiles that are built from the groups: of each group
/// the options that are admitted, and of these member lists those with at
/// least `SMILE_MIN_OPTIONS_REQUIRED` options, in the order of the groups.
pub open spec fn valid_smiles(groups: Seq<Seq<OptionInstrument>>) -> Seq<Seq<OptionInstrument>>
    decreases groups.len(),
{
    if groups.len() == 0 {
        Seq::empty()
    } else {
        let earlier = valid_smiles(groups.drop_last());
        let members = admitted(groups.last());
        if members.len() >= SMILE_MIN_OPTIONS_REQUIRED {
            earlier.push(members)
        } else {
            earlier
        }
    }
}

/// The smiles that were fit, in their order.
pub open spec fn fitted(smiles: Seq<SmileGraph>) -> Seq<SmileGraph>
    decreases smiles.len(),
{
    if smiles.len() == 0 {
        Seq::empty()
    } else {
        let earlier = fitted(smiles.drop_last());
        if smiles.last().has_been_fit() {
            earlier.push(smiles.last())
        } else {
            earlier
        }
    }
}

/// No expiry occurs twice among the expiries in order.
pub proof fn lemma_expiries_in_order_are_distinct(options: Seq<OptionInstrument>)
    ensures
        forall|i: int, j: int|
            0 <= i < j < expiries_in_order(options).len() ==> expiries_in_order(options)[i]
                != expiries_in_order(options)[j],
    decreases options.len(),
{
    if options.len() > 0 {
        lemma_expiries_in_order_are_distinct(options.drop_last());
        let earlier = expiries_in_order(options.drop_last());
        let all = expiries_in_order(options);
        assert forall|i: int, j: int| 0 <= i < j < all.len() implies all[i] != all[j] by {
            if j == earlier.len() {
                assert(earlier[i] == all[i]);
                assert(!earlier.contains(options.last().expiration()));
            } else {
                assert(earlier[i] == all[i] && earlier[j] == all[j]);
            }
        }
    }
}

/// An expiry is among the expiries in order exactly when some option
/// expires then, that is, when its group is not empty.
pub proof fn lemma_expiry_is_listed_iff_its_group_is_not_empty(
    options: Seq<OptionInstrument>,
    expiration: i64,
)
    ensures
        expiries_in_order(options).contains(expiration) <==> expiring_at(
            options,
            expiration,
        ).len() > 0,
    decreases options.len(),
{
    if options.len() > 0 {
        let earlier = expiries_in_order(options.drop_last());
        lemma_expiry_is_listed_iff_its_group_is_not_empty(options.drop_last(), expiration);
        if earlier.contains(options.last().expiration()) {
        } else {
            let longer = earlier.push(options.last().expiration());
            assert(longer[earlier.len() as int] == options.last().expiration());
            if earlier.contains(expiration) {
                let k = choose|k: int| 0 <= k < earlier.len() && earlier[k] == expiration;
                assert(longer[k] == expiration);
            }
        }
    }
}

/// Every option of a group expires at the time of the group.
pub proof fn lemma_group_shares_its_expiry(
    options: Seq<OptionInstrument>,
    expiration: i64,
    i: int,
)
    requires
        0 <= i < expiring_at(options, expiration).len(),
    ensures
        expiring_at(options, expiration)[i].expiration() == expiration,
    decreases options.len(),
{
    if options.len() > 0 {
        let earlier = expiring_at(options.drop_last(), expiration);
        if i < earlier.len() {
            lemma_group_shares_its_expiry(options.drop_last(), expiration, i);
        }
    }
}

/// Every option is in the group of its expiry.
pub proof fn lemma_every_option_is_in_the_group_of_its_expiry(
    options: Seq<OptionInstrument>,
    i: int,
)
    requires
        0 <= i < options.len(),
    ensures
        expiring_at(options, options[i].expiration()).contains(options[i]),
        expiries_in_order(options).contains(options[i].expiration()),
    decreases options.len(),
{
    let expiration = options[i].expiration();
    let group = expiring_at(options, expiration);
    if i == options.len() - 1 {
        assert(group[group.len() - 1] == options[i]);
    } else {
        lemma_every_option_is_in_the_group_of_its_expiry(options.drop_last(), i);
        let earlier = expiring_at(options.drop_last(), expiration);
        let k = choose|k: int| 0 <= k < earlier.len() && earlier[k] == options[i];
        assert(group[k] == options[i]);
    }
    lemma_expiry_is_listed_iff_its_group_is_not_empty(options, expiration);
}

fn position_of(expiries: &Vec<i64>, expiration: i64) -> (r: Option<usize>)
    ensures
        r matches Some(k) ==> k < expiries@.len() && expiries@[k as int] == expiration,
        r is None ==> !expiries@.contains(expiration),
{
    let mut k: usize = 0;
    while k < expiries.len()
        invariant
            k <= expiries@.len(),
            forall|j: int| 0 <= j < k ==> expiries@[j] != expiration,
        decreases expiries@.len() - k,
    {
        if expiries[k] == expiration {
            return Some(k);
        }
        k += 1;
    }
    None
}

/// Groups the options by their expiry. The groups come in the order in
/// which their expiries first occur, and each holds its options in their
/// order.
pub fn group_options_by_expiry(options: Vec<OptionInstrument>) -> (r: Vec<Vec<OptionInstrument>>)
    ensures
        r@.len() == expiries_in_order(options@).len(),
        forall|k: int|
            0 <= k < r@.len() ==> (#[trigger] r@[k])@ == expiring_at(
                options@,
                expiries_in_order(options@)[k],
            ),
{
    let mut expiries: Vec<i64> = Vec::new();
    let mut groups: Vec<Vec<OptionInstrument>> = Vec::new();
    for option in it: options
        invariant
            it.seq() == options@,
            expiries@ == expiries_in_order(options@.take(it.index() as int)),
            groups@.len() == expiries@.len(),
            forall|k: int|
                0 <= k < groups@.len() ==> (#[trigger] groups@[k])@ == expiring_at(
                    options@.take(it.index() as int),
                    expiries@[k],
                ),
    {
        let ghost seen = options@.take(it.index() as int);
        let ghost longer = options@.take(it.index() + 1);
        proof {
            assert(longer.drop_last() =~= seen);
            assert(longer.last() == option);
            lemma_expiries_in_order_are_distinct(seen);
            lemma_expiry_is_listed_iff_its_group_is_not_empty(seen, option.expiration());
        }
        let expiration = option.get_expiration();
        match position_of(&expiries, expiration) {
            Some(k) => {
                groups[k].push(option);
            },
            None => {
                let mut group: Vec<OptionInstrument> = Vec::new();
                group.push(option);
                expiries.push(expiration);
                groups.push(group);
                proof {
                    assert(expiring_at(seen, expiration) =~= Seq::empty());
                }
            },
        }
    }
    proof {
        assert(options@.take(options@.len() as int) =~= options@);
    }
    groups
}

/// Builds one smile from each group, offering it the options of the group
/// in their order, and keeps the smiles that are valid. The smiles come in
/// the order of their groups and are not yet fit.
pub fn build_smile_graphs(grouped_options: Vec<Vec<OptionInstrument>>) -> (r: Vec<SmileGraph>)
    ensures
        r@.len() == valid_smiles(groups_of(grouped_options@)).len(),
        forall|k: int|
            0 <= k < r@.len() ==> {
                &&& (#[trigger] r@[k]).wf()
                &&& r@[k].options() == valid_smiles(groups_of(grouped_options@))[k]
                &&& r@[k].svi_curve_parameters() is None
                &&& r@[k].underlying_forward_price() is None
            },
{
    let mut smiles: Vec<SmileGraph> = Vec::new();
    let ghost all = groups_of(grouped_options@);
    for options in groups: grouped_options
        invariant
            groups.seq() == grouped_options@,
            all == groups_of(grouped_options@),
            smiles@.len() == valid_smiles(all.take(groups.index() as int)).len(),
            forall|k: int|
                0 <= k < smiles@.len() ==> {
                    &&& (#[trigger] smiles@[k]).wf()
                    &&& smiles@[k].options() == valid_smiles(all.take(groups.index() as int))[k]
                    &&& smiles@[k].svi_curve_parameters() is None
                    &&& smiles@[k].underlying_forward_price() is None
                },
    {
        let ghost group = options@;
        proof {
            assert(all.take(groups.index() + 1).drop_last() =~= all.take(groups.index() as int));
            assert(all.take(groups.index() + 1).last() == group);
        }
        let mut smile_graph = SmileGraph::new();
        proof {
            assert(smile_graph.options() =~= admitted(group.take(0)));
        }
        for option in members: options
            invariant
                members.seq() == group,
                smile_graph.wf(),
                smile_graph.options() == admitted(group.take(members.index() as int)),
                smile_graph.svi_curve_parameters() is None,
                smile_graph.underlying_forward_price() is None,
        {
            proof {
                assert(group.take(members.index() + 1).drop_last() =~= group.take(
                    members.index() as int,
                ));
                assert(group.take(members.index() + 1).last() == option);
            }
            match smile_graph.try_insert_option(option) {
                Ok(_) => {},
                Err(_) => {},
            }
        }
        proof {
            assert(group.take(group.len() as int) =~= group);
        }
        match smile_graph.error_unless_valid() {
            Ok(_) => {
                smiles.push(smile_graph);
            },
            Err(_) => {},
        }
    }
    proof {
        assert(all.take(all.len() as int) =~= all);
    }
    smiles
}

/// Keeps the smiles that were fit, in their order.
pub fn select_fitted(smiles: Vec<SmileGraph>) -> (r: Vec<SmileGraph>)
    ensures
        r@ == fitted(smiles@),
{
    let mut kept: Vec<SmileGraph> = Vec::new();
    for smile in it: smiles
        invariant
            it.seq() == smiles@,
            kept@ == fitted(smiles@.take(it.index() as int)),
    {
        proof {
            assert(smiles@.take(it.index() + 1).drop_last() =~= smiles@.take(it.index() as int));
            assert(smiles@.take(it.index() + 1).last() == smile);
        }
        if smile.get_has_been_fit() {
            kept.push(smile);
        }
    }
    proof {
        assert(smiles@.take(smiles@.len() as int) =~= smiles@);
    }
    kept
}

} // verus!
