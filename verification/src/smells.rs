//! Findings over the merged data of a workspace: private functions that
//! nothing calls, and declarations that pass a fixed threshold.
//!
//! Names are matched as text, without file or module. Each threshold is a
//! strict bound, and each rule speaks for itself: one declaration may be
//! named by several findings.

use vstd::prelude::*;
use crate::models::{
    capped, EnumInfo, EnumInfoView, FunctionInfo, FunctionInfoView, ReferenceLocation,
    ReferenceLocationView, StructInfo, StructInfoView,
};
use crate::name_map::{lemma_put, lookup, put, NameMap};
use crate::text::{counted_note, decimal, located_note};

verus! {

/// `name` stands in the callee list of some caller.
pub open spec fn is_callee(calls: Seq<(Seq<char>, Seq<Seq<char>>)>, name: Seq<char>) -> bool {
    exists|i: int, j: int|
        0 <= i < calls.len() && 0 <= j < calls[i].1.len() && #[trigger] calls[i].1[j] == name
}

/// A private function that is not `main` and that nothing calls.
pub open spec fn is_unused(function: FunctionInfoView, calls: Seq<(Seq<char>, Seq<Seq<char>>)>)
    -> bool {
    &&& function.visibility == "private"@
    &&& function.name != "main"@
    &&& !is_callee(calls, function.name)
}

pub open spec fn unused_rule(calls: Seq<(Seq<char>, Seq<Seq<char>>)>) -> spec_fn(
    FunctionInfoView,
) -> Option<Seq<char>> {
    |function: FunctionInfoView|
        if is_unused(function, calls) {
            Some(function.name)
        } else {
            None
        }
}

/// The names of the unused functions among `functions`, in their order.
pub open spec fn unused_functions(
    functions: Seq<FunctionInfoView>,
    calls: Seq<(Seq<char>, Seq<Seq<char>>)>,
) -> Seq<Seq<char>> {
    functions.filter_map(unused_rule(calls))
}

/// Whether `name` is a callee in `call_graph`.
pub fn is_called(call_graph: &NameMap<Vec<String>>, name: &String) -> (called: bool)
    ensures
        called == is_callee(call_graph@, name@),
{
    let mut i: usize = 0;
    while i < call_graph.len()
        invariant
            i <= call_graph@.len(),
            forall|a: int, b: int|
                0 <= a < i && 0 <= b < call_graph@[a].1.len() ==> #[trigger] call_graph@[a].1[b]
                    != name@,
        decreases call_graph@.len() - i,
    {
        let callees = call_graph.value_at(i);
        let mut j: usize = 0;
        while j < callees.len()
            invariant
                j <= callees.len(),
                i < call_graph@.len(),
                callees.deep_view() == call_graph@[i as int].1,
                forall|b: int| 0 <= b < j ==> #[trigger] call_graph@[i as int].1[b] != name@,
            decreases callees.len() - j,
        {
            assert(callees.deep_view()[j as int] == callees[j as int]@);
            if callees[j] == *name {
                assert(call_graph@[i as int].1[j as int] == name@);
                return true;
            }
            j += 1;
        }
        i += 1;
    }
    false
}

/// The private functions that nothing calls: a function is listed when its
/// visibility is private, its name is not `main`, and its name is no callee
/// in `call_graph`.
pub fn detect_unused_functions(
    functions: &Vec<FunctionInfo>,
    call_graph: &NameMap<Vec<String>>,
) -> (unused: Vec<String>)
    ensures
        unused.deep_view() == unused_functions(functions.deep_view(), call_graph@),
{
    let ghost rule = unused_rule(call_graph@);
    let ghost all = functions.deep_view();
    let private = "private".to_owned();
    let main = "main".to_owned();
    let mut unused: Vec<String> = Vec::new();
    let mut i: usize = 0;
    assert(unused.deep_view() =~= all.take(0).filter_map(rule));
    while i < functions.len()
        invariant
            i <= functions.len(),
            all == functions.deep_view(),
            rule == unused_rule(call_graph@),
            private@ == "private"@,
            main@ == "main"@,
            unused.deep_view() == all.take(i as int).filter_map(rule),
        decreases functions.len() - i,
    {
        let function = &functions[i];
        proof {
            all.lemma_filter_map_take_succ(rule, i as int);
        }
        if function.visibility == private && function.name != main && !is_called(
            call_graph,
            &function.name,
        ) {
            unused.push(function.name.clone());
        }
        assert(unused.deep_view() =~= all.take(i + 1).filter_map(rule));
        i += 1;
    }
    assert(all.take(i as int) =~= all);
    unused
}

/// Most lines a function may have.
pub const MAX_LINES: usize = 50;

/// Highest complexity a function may have.
pub const MAX_COMPLEXITY: usize = 10;

/// Most parameters a function may have.
pub const MAX_PARAMS: usize = 5;

/// Most fields a struct may have.
pub const MAX_FIELDS: usize = 10;

/// Most variants an enum may have.
pub const MAX_VARIANTS: usize = 10;

/// Most call sites a function may have.
pub const MAX_CALLEES: usize = 10;

/// Most call sites that may name one function.
pub const MAX_CALLERS: usize = 10;

/// Most places in which a struct may be used.
pub const MAX_USAGES: usize = 10;

pub open spec fn long_function_note(function: FunctionInfoView) -> Seq<char> {
    "Function '"@ + function.name + "' in "@ + function.file + " is too long ("@ + decimal(
        function.line_count as nat,
    ) + " lines). Consider breaking it into smaller functions."@
}

pub open spec fn complex_function_note(function: FunctionInfoView) -> Seq<char> {
    "Function '"@ + function.name + "' in "@ + function.file + " has high complexity ("@ + decimal(
        function.complexity as nat,
    ) + "). Consider simplifying the logic."@
}

pub open spec fn many_params_note(function: FunctionInfoView) -> Seq<char> {
    "Function '"@ + function.name + "' in "@ + function.file + " has too many parameters ("@
        + decimal(function.param_count as nat)
        + "). Consider using a struct or builder pattern."@
}

pub open spec fn large_struct_note(item: StructInfoView) -> Seq<char> {
    "Struct '"@ + item.name + "' in "@ + item.file + " has too many fields ("@ + decimal(
        item.field_count as nat,
    ) + "). Consider splitting into smaller structs."@
}

pub open spec fn large_enum_note(item: EnumInfoView) -> Seq<char> {
    "Enum '"@ + item.name + "' in "@ + item.file + " has too many variants ("@ + decimal(
        item.variant_count as nat,
    ) + "). Consider using separate enums or structs."@
}

pub open spec fn busy_caller_note(caller: Seq<char>, count: nat) -> Seq<char> {
    "Function '"@ + caller + "' calls too many other functions ("@ + decimal(count)
        + "). Consider reducing coupling."@
}

pub open spec fn popular_callee_note(callee: Seq<char>, count: nat) -> Seq<char> {
    "Function '"@ + callee + "' is called by too many functions ("@ + decimal(count)
        + "). Consider introducing an interface or facade."@
}

pub open spec fn widely_used_note(item: StructInfoView, count: nat) -> Seq<char> {
    "Struct '"@ + item.name + "' in "@ + item.file + " is used in too many places ("@ + decimal(
        count,
    ) + "). Consider breaking it into smaller components."@
}

/// A function with more than `MAX_LINES` lines.
pub open spec fn long_function_rule() -> spec_fn(FunctionInfoView) -> Option<Seq<char>> {
    |function: FunctionInfoView|
        if function.line_count > MAX_LINES {
            Some(long_function_note(function))
        } else {
            None
        }
}

/// A function with a complexity above `MAX_COMPLEXITY`.
pub open spec fn complex_function_rule() -> spec_fn(FunctionInfoView) -> Option<Seq<char>> {
    |function: FunctionInfoView|
        if function.complexity > MAX_COMPLEXITY {
            Some(complex_function_note(function))
        } else {
            None
        }
}

/// A function with more than `MAX_PARAMS` parameters.
pub open spec fn many_params_rule() -> spec_fn(FunctionInfoView) -> Option<Seq<char>> {
    |function: FunctionInfoView|
        if function.param_count > MAX_PARAMS {
            Some(many_params_note(function))
        } else {
            None
        }
}

/// A struct with more than `MAX_FIELDS` fields.
pub open spec fn large_struct_rule() -> spec_fn(StructInfoView) -> Option<Seq<char>> {
    |item: StructInfoView|
        if item.field_count > MAX_FIELDS {
            Some(large_struct_note(item))
        } else {
            None
        }
}

/// An enum with more than `MAX_VARIANTS` variants.
pub open spec fn large_enum_rule() -> spec_fn(EnumInfoView) -> Option<Seq<char>> {
    |item: EnumInfoView|
        if item.variant_count > MAX_VARIANTS {
            Some(large_enum_note(item))
        } else {
            None
        }
}

/// A caller with more than `MAX_CALLEES` call sites.
pub open spec fn busy_caller_rule() -> spec_fn((Seq<char>, Seq<Seq<char>>)) -> Option<Seq<char>> {
    |entry: (Seq<char>, Seq<Seq<char>>)|
        if entry.1.len() > MAX_CALLEES {
            Some(busy_caller_note(entry.0, entry.1.len()))
        } else {
            None
        }
}

/// One more than `count`, up to `usize::MAX`; one where there is no count.
pub open spec fn bump(count: Option<usize>) -> usize {
    match count {
        Some(n) => if n < usize::MAX {
            (n + 1) as usize
        } else {
            n
        },
        None => 1,
    }
}

/// `tally` with one more counted for each of `names`, in order.
pub open spec fn tally_names(tally: Seq<(Seq<char>, usize)>, names: Seq<Seq<char>>) -> Seq<
    (Seq<char>, usize),
>
    decreases names.len(),
{
    if names.len() == 0 {
        tally
    } else {
        let counted = tally_names(tally, names.drop_last());
        put(counted, names.last(), bump(lookup(counted, names.last())))
    }
}

/// For each callee of `calls`, in the order in which the callees first
/// occur, the number of call sites that name it, up to `usize::MAX`.
pub open spec fn tally_calls(calls: Seq<(Seq<char>, Seq<Seq<char>>)>) -> Seq<(Seq<char>, usize)>
    decreases calls.len(),
{
    if calls.len() == 0 {
        Seq::empty()
    } else {
        tally_names(tally_calls(calls.drop_last()), calls.last().1)
    }
}

/// A callee that more than `MAX_CALLERS` call sites name.
pub open spec fn popular_callee_rule() -> spec_fn((Seq<char>, usize)) -> Option<Seq<char>> {
    |entry: (Seq<char>, usize)|
        if entry.1 > MAX_CALLERS {
            Some(popular_callee_note(entry.0, entry.1 as nat))
        } else {
            None
        }
}

/// Number of places in which `usages` has the name used.
pub open spec fn usage_count(
    usages: Seq<(Seq<char>, Seq<ReferenceLocationView>)>,
    name: Seq<char>,
) -> nat {
    match lookup(usages, name) {
        Some(places) => places.len(),
        None => 0,
    }
}

/// A struct used in more than `MAX_USAGES` places.
pub open spec fn widely_used_rule(usages: Seq<(Seq<char>, Seq<ReferenceLocationView>)>) -> spec_fn(
    StructInfoView,
) -> Option<Seq<char>> {
    |item: StructInfoView|
        if usage_count(usages, item.name) > MAX_USAGES {
            Some(widely_used_note(item, usage_count(usages, item.name)))
        } else {
            None
        }
}

/// The findings of all rules: per rule in the order of its input, and rule
/// after rule.
pub open spec fn refactoring_suggestions(
    functions: Seq<FunctionInfoView>,
    structs: Seq<StructInfoView>,
    enums: Seq<EnumInfoView>,
    calls: Seq<(Seq<char>, Seq<Seq<char>>)>,
    usages: Seq<(Seq<char>, Seq<ReferenceLocationView>)>,
) -> Seq<Seq<char>> {
    functions.filter_map(long_function_rule()) + functions.filter_map(complex_function_rule())
        + functions.filter_map(many_params_rule()) + structs.filter_map(large_struct_rule())
        + enums.filter_map(large_enum_rule()) + calls.filter_map(busy_caller_rule())
        + tally_calls(calls).filter_map(popular_callee_rule()) + structs.filter_map(
        widely_used_rule(usages),
    )
}

fn note_long_functions(functions: &Vec<FunctionInfo>, notes: &mut Vec<String>)
    ensures
        final(notes).deep_view() == old(notes).deep_view() + functions.deep_view().filter_map(
            long_function_rule(),
        ),
{
    let ghost rule = long_function_rule();
    let ghost all = functions.deep_view();
    let mut i: usize = 0;
    assert(notes.deep_view() =~= old(notes).deep_view() + all.take(0).filter_map(rule));
    while i < functions.len()
        invariant
            i <= all.len(),
            all == functions.deep_view(),
            rule == long_function_rule(),
            notes.deep_view() == old(notes).deep_view() + all.take(i as int).filter_map(rule),
        decreases all.len() - i,
    {
        let function = &functions[i];
        assert(all[i as int] == function@);
        let ghost found = notes.deep_view();
        proof {
            all.lemma_filter_map_take_succ(rule, i as int);
        }
        if function.line_count > MAX_LINES {
            let note = located_note(
                "Function '",
                function.name.as_str(),
                "' in ",
                function.file.as_str(),
                " is too long (",
                function.line_count,
                " lines). Consider breaking it into smaller functions.",
            );
            assert(rule(all[i as int]) == Some(note@));
            notes.push(note);
            assert(notes.deep_view() =~= found.push(note@));
        }
        i += 1;
    }
    assert(all.take(i as int) =~= all);
}

fn note_complex_functions(functions: &Vec<FunctionInfo>, notes: &mut Vec<String>)
    ensures
        final(notes).deep_view() == old(notes).deep_view() + functions.deep_view().filter_map(
            complex_function_rule(),
        ),
{
    let ghost rule = complex_function_rule();
    let ghost all = functions.deep_view();
    let mut i: usize = 0;
    assert(notes.deep_view() =~= old(notes).deep_view() + all.take(0).filter_map(rule));
    while i < functions.len()
        invariant
            i <= all.len(),
            all == functions.deep_view(),
            rule == complex_function_rule(),
            notes.deep_view() == old(notes).deep_view() + all.take(i as int).filter_map(rule),
        decreases all.len() - i,
    {
        let function = &functions[i];
        assert(all[i as int] == function@);
        let ghost found = notes.deep_view();
        proof {
            all.lemma_filter_map_take_succ(rule, i as int);
        }
        if function.complexity > MAX_COMPLEXITY {
            let note = located_note(
                "Function '",
                function.name.as_str(),
                "' in ",
                function.file.as_str(),
                " has high complexity (",
                function.complexity,
                "). Consider simplifying the logic.",
            );
            assert(rule(all[i as int]) == Some(note@));
            notes.push(note);
            assert(notes.deep_view() =~= found.push(note@));
        }
        i += 1;
    }
    assert(all.take(i as int) =~= all);
}

fn note_many_params(functions: &Vec<FunctionInfo>, notes: &mut Vec<String>)
    ensures
        final(notes).deep_view() == old(notes).deep_view() + functions.deep_view().filter_map(
            many_params_rule(),
        ),
{
    let ghost rule = many_params_rule();
    let ghost all = functions.deep_view();
    let mut i: usize = 0;
    assert(notes.deep_view() =~= old(notes).deep_view() + all.take(0).filter_map(rule));
    while i < functions.len()
        invariant
            i <= all.len(),
            all == functions.deep_view(),
            rule == many_params_rule(),
            notes.deep_view() == old(notes).deep_view() + all.take(i as int).filter_map(rule),
        decreases all.len() - i,
    {
        let function = &functions[i];
        assert(all[i as int] == function@);
        let ghost found = notes.deep_view();
        proof {
            all.lemma_filter_map_take_succ(rule, i as int);
        }
        if function.param_count > MAX_PARAMS {
            let note = located_note(
                "Function '",
                function.name.as_str(),
                "' in ",
                function.file.as_str(),
                " has too many parameters (",
                function.param_count,
                "). Consider using a struct or builder pattern.",
            );
            assert(rule(all[i as int]) == Some(note@));
            notes.push(note);
            assert(notes.deep_view() =~= found.push(note@));
        }
        i += 1;
    }
    assert(all.take(i as int) =~= all);
}

fn note_large_structs(structs: &Vec<StructInfo>, notes: &mut Vec<String>)
    ensures
        final(notes).deep_view() == old(notes).deep_view() + structs.deep_view().filter_map(
            large_struct_rule(),
        ),
{
    let ghost rule = large_struct_rule();
    let ghost all = structs.deep_view();
    let mut i: usize = 0;
    assert(notes.deep_view() =~= old(notes).deep_view() + all.take(0).filter_map(rule));
    while i < structs.len()
        invariant
            i <= all.len(),
            all == structs.deep_view(),
            rule == large_struct_rule(),
            notes.deep_view() == old(notes).deep_view() + all.take(i as int).filter_map(rule),
        decreases all.len() - i,
    {
        let item = &structs[i];
        assert(all[i as int] == item@);
        let ghost found = notes.deep_view();
        proof {
            all.lemma_filter_map_take_succ(rule, i as int);
        }
        if item.field_count > MAX_FIELDS {
            let note = located_note(
                "Struct '",
                item.name.as_str(),
                "' in ",
                item.file.as_str(),
                " has too many fields (",
                item.field_count,
                "). Consider splitting into smaller structs.",
            );
            assert(rule(all[i as int]) == Some(note@));
            notes.push(note);
            assert(notes.deep_view() =~= found.push(note@));
        }
        i += 1;
    }
    assert(all.take(i as int) =~= all);
}

fn note_large_enums(enums: &Vec<EnumInfo>, notes: &mut Vec<String>)
    ensures
        final(notes).deep_view() == old(notes).deep_view() + enums.deep_view().filter_map(
            large_enum_rule(),
        ),
{
    let ghost rule = large_enum_rule();
    let ghost all = enums.deep_view();
    let mut i: usize = 0;
    assert(notes.deep_view() =~= old(notes).deep_view() + all.take(0).filter_map(rule));
    while i < enums.len()
        invariant
            i <= all.len(),
            all == enums.deep_view(),
            rule == large_enum_rule(),
            notes.deep_view() == old(notes).deep_view() + all.take(i as int).filter_map(rule),
        decreases all.len() - i,
    {
        let item = &enums[i];
        assert(all[i as int] == item@);
        let ghost found = notes.deep_view();
        proof {
            all.lemma_filter_map_take_succ(rule, i as int);
        }
        if item.variant_count > MAX_VARIANTS {
            let note = located_note(
                "Enum '",
                item.name.as_str(),
                "' in ",
                item.file.as_str(),
                " has too many variants (",
                item.variant_count,
                "). Consider using separate enums or structs.",
            );
            assert(rule(all[i as int]) == Some(note@));
            notes.push(note);
            assert(notes.deep_view() =~= found.push(note@));
        }
        i += 1;
    }
    assert(all.take(i as int) =~= all);
}

fn note_busy_callers(call_graph: &NameMap<Vec<String>>, notes: &mut Vec<String>)
    ensures
        final(notes).deep_view() == old(notes).deep_view() + call_graph@.filter_map(
            busy_caller_rule(),
        ),
{
    let ghost rule = busy_caller_rule();
    let ghost all = call_graph@;
    let mut i: usize = 0;
    assert(notes.deep_view() =~= old(notes).deep_view() + all.take(0).filter_map(rule));
    while i < call_graph.len()
        invariant
            i <= all.len(),
            all == call_graph@,
            rule == busy_caller_rule(),
            notes.deep_view() == old(notes).deep_view() + all.take(i as int).filter_map(rule),
        decreases all.len() - i,
    {
        let caller = call_graph.key_at(i);
        let callees = call_graph.value_at(i);
        let ghost found = notes.deep_view();
        proof {
            all.lemma_filter_map_take_succ(rule, i as int);
        }
        if callees.len() > MAX_CALLEES {
            let note = counted_note(
                "Function '",
                caller.as_str(),
                "' calls too many other functions (",
                callees.len(),
                "). Consider reducing coupling.",
            );
            assert(rule(all[i as int]) == Some(note@));
            notes.push(note);
            assert(notes.deep_view() =~= found.push(note@));
        }
        i += 1;
    }
    assert(all.take(i as int) =~= all);
}

/// Counts, for each callee, the call sites that name it.
pub fn count_callers(call_graph: &NameMap<Vec<String>>) -> (tally: NameMap<usize>)
    ensures
        tally@ == tally_calls(call_graph@),
{
    let mut tally: NameMap<usize> = NameMap::new();
    let mut i: usize = 0;
    assert(call_graph@.take(0) =~= Seq::<(Seq<char>, Seq<Seq<char>>)>::empty());
    while i < call_graph.len()
        invariant
            i <= call_graph@.len(),
            tally@ == tally_calls(call_graph@.take(i as int)),
        decreases call_graph@.len() - i,
    {
        let callees = call_graph.value_at(i);
        let ghost names = call_graph@[i as int].1;
        let ghost start = tally@;
        let mut j: usize = 0;
        assert(names.take(0) =~= Seq::<Seq<char>>::empty());
        while j < callees.len()
            invariant
                j <= callees.len(),
                names == callees.deep_view(),
                tally@ == tally_names(start, names.take(j as int)),
            decreases callees.len() - j,
        {
            let callee = &callees[j];
            let count = match tally.get(callee.as_str()) {
                Some(n) => if *n < usize::MAX {
                    *n + 1
                } else {
                    *n
                },
                None => 1,
            };
            assert(names.take(j + 1).drop_last() =~= names.take(j as int));
            assert(names.take(j + 1).last() == callee@);
            tally.insert(callee.clone(), count);
            j += 1;
        }
        assert(names.take(j as int) =~= names);
        assert(call_graph@.take(i + 1).drop_last() =~= call_graph@.take(i as int));
        i += 1;
    }
    assert(call_graph@.take(i as int) =~= call_graph@);
    tally
}

fn note_popular_callees(tally: &NameMap<usize>, notes: &mut Vec<String>)
    ensures
        final(notes).deep_view() == old(notes).deep_view() + tally@.filter_map(
            popular_callee_rule(),
        ),
{
    let ghost rule = popular_callee_rule();
    let ghost all = tally@;
    let mut i: usize = 0;
    assert(notes.deep_view() =~= old(notes).deep_view() + all.take(0).filter_map(rule));
    while i < tally.len()
        invariant
            i <= all.len(),
            all == tally@,
            rule == popular_callee_rule(),
            notes.deep_view() == old(notes).deep_view() + all.take(i as int).filter_map(rule),
        decreases all.len() - i,
    {
        let callee = tally.key_at(i);
        let count = *tally.value_at(i);
        let ghost found = notes.deep_view();
        proof {
            all.lemma_filter_map_take_succ(rule, i as int);
        }
        if count > MAX_CALLERS {
            let note = counted_note(
                "Function '",
                callee.as_str(),
                "' is called by too many functions (",
                count,
                "). Consider introducing an interface or facade.",
            );
            assert(rule(all[i as int]) == Some(note@));
            notes.push(note);
            assert(notes.deep_view() =~= found.push(note@));
        }
        i += 1;
    }
    assert(all.take(i as int) =~= all);
}

fn note_widely_used(
    structs: &Vec<StructInfo>,
    type_usage: &NameMap<Vec<ReferenceLocation>>,
    notes: &mut Vec<String>,
)
    ensures
        final(notes).deep_view() == old(notes).deep_view() + structs.deep_view().filter_map(
            widely_used_rule(type_usage@),
        ),
{
    let ghost rule = widely_used_rule(type_usage@);
    let ghost all = structs.deep_view();
    let mut i: usize = 0;
    assert(notes.deep_view() =~= old(notes).deep_view() + all.take(0).filter_map(rule));
    while i < structs.len()
        invariant
            i <= all.len(),
            all == structs.deep_view(),
            rule == widely_used_rule(type_usage@),
            notes.deep_view() == old(notes).deep_view() + all.take(i as int).filter_map(rule),
        decreases all.len() - i,
    {
        let item = &structs[i];
        assert(all[i as int] == item@);
        let count = match type_usage.get(item.name.as_str()) {
            Some(places) => places.len(),
            None => 0,
        };
        let ghost found = notes.deep_view();
        proof {
            all.lemma_filter_map_take_succ(rule, i as int);
        }
        if count > MAX_USAGES {
            let note = located_note(
                "Struct '",
                item.name.as_str(),
                "' in ",
                item.file.as_str(),
                " is used in too many places (",
                count,
                "). Consider breaking it into smaller components.",
            );
            assert(rule(all[i as int]) == Some(note@));
            notes.push(note);
            assert(notes.deep_view() =~= found.push(note@));
        }
        i += 1;
    }
    assert(all.take(i as int) =~= all);
}

/// The findings of the threshold rules over the merged data of a
/// workspace, rule after rule: long functions, complex functions, functions
/// with many parameters, large structs, large enums, callers with many call
/// sites, callees of many call sites, and structs used in many places.
pub fn generate_refactoring_suggestions(
    functions: &Vec<FunctionInfo>,
    structs: &Vec<StructInfo>,
    enums: &Vec<EnumInfo>,
    call_graph: &NameMap<Vec<String>>,
    type_usage: &NameMap<Vec<ReferenceLocation>>,
) -> (suggestions: Vec<String>)
    ensures
        suggestions.deep_view() == refactoring_suggestions(
            functions.deep_view(),
            structs.deep_view(),
            enums.deep_view(),
            call_graph@,
            type_usage@,
        ),
{
    let mut suggestions: Vec<String> = Vec::new();
    assert(suggestions.deep_view() =~= Seq::<Seq<char>>::empty());
    note_long_functions(functions, &mut suggestions);
    note_complex_functions(functions, &mut suggestions);
    note_many_params(functions, &mut suggestions);
    note_large_structs(structs, &mut suggestions);
    note_large_enums(enums, &mut suggestions);
    note_busy_callers(call_graph, &mut suggestions);
    let tally = count_callers(call_graph);
    note_popular_callees(&tally, &mut suggestions);
    note_widely_used(structs, type_usage, &mut suggestions);
    assert(suggestions.deep_view() =~= refactoring_suggestions(
        functions.deep_view(),
        structs.deep_view(),
        enums.deep_view(),
        call_graph@,
        type_usage@,
    ));
    suggestions
}

/// A name is listed as unused exactly when some function of that name is
/// private, is not `main`, and is no callee of the call graph.
pub proof fn lemma_unused_iff(
    functions: Seq<FunctionInfoView>,
    calls: Seq<(Seq<char>, Seq<Seq<char>>)>,
    name: Seq<char>,
)
    ensures
        unused_functions(functions, calls).contains(name) <==> exists|i: int|
            0 <= i < functions.len() && #[trigger] functions[i].name == name && is_unused(
                functions[i],
                calls,
            ),
    decreases functions.len(),
{
    let rule = unused_rule(calls);
    if functions.len() > 0 {
        let rest = functions.drop_last();
        let last = functions.last();
        lemma_unused_iff(rest, calls, name);
        let listed = rest.filter_map(rule);
        if unused_functions(functions, calls).contains(name) {
            if listed.contains(name) {
                let i = choose|i: int|
                    0 <= i < rest.len() && #[trigger] rest[i].name == name && is_unused(
                        rest[i],
                        calls,
                    );
                assert(functions[i].name == name && is_unused(functions[i], calls));
            } else {
                assert(rule(last) == Some(name)) by {
                    let all = unused_functions(functions, calls);
                    let at = choose|at: int| 0 <= at < all.len() && all[at] == name;
                    if at < listed.len() {
                        assert(listed[at] == name);
                    }
                }
                assert(functions[functions.len() - 1].name == name && is_unused(
                    functions[functions.len() - 1],
                    calls,
                ));
            }
        }
        if exists|i: int|
            0 <= i < functions.len() && #[trigger] functions[i].name == name && is_unused(
                functions[i],
                calls,
            ) {
            let i = choose|i: int|
                0 <= i < functions.len() && #[trigger] functions[i].name == name && is_unused(
                    functions[i],
                    calls,
                );
            let all = unused_functions(functions, calls);
            if i < rest.len() {
                assert(rest[i].name == name && is_unused(rest[i], calls));
                let at = choose|at: int| 0 <= at < listed.len() && listed[at] == name;
                assert(all[at] == name);
            } else {
                assert(all[all.len() - 1] == name);
            }
        }
    }
}

/// Each threshold is a strict bound: a rule reports a declaration exactly
/// when its measure is greater than the bound.
pub proof fn lemma_thresholds_are_strict(
    function: FunctionInfoView,
    a_struct: StructInfoView,
    an_enum: EnumInfoView,
    caller: (Seq<char>, Seq<Seq<char>>),
    callee: (Seq<char>, usize),
    usages: Seq<(Seq<char>, Seq<ReferenceLocationView>)>,
)
    ensures
        long_function_rule()(function) is Some <==> function.line_count > 50,
        complex_function_rule()(function) is Some <==> function.complexity > 10,
        many_params_rule()(function) is Some <==> function.param_count > 5,
        large_struct_rule()(a_struct) is Some <==> a_struct.field_count > 10,
        large_enum_rule()(an_enum) is Some <==> an_enum.variant_count > 10,
        busy_caller_rule()(caller) is Some <==> caller.1.len() > 10,
        popular_callee_rule()(callee) is Some <==> callee.1 > 10,
        widely_used_rule(usages)(a_struct) is Some <==> usage_count(usages, a_struct.name) > 10,
{
}

/// Number of times `name` stands in `names`.
pub open spec fn occurrences(names: Seq<Seq<char>>, name: Seq<char>) -> nat
    decreases names.len(),
{
    if names.len() == 0 {
        0
    } else {
        occurrences(names.drop_last(), name) + if names.last() == name {
            1nat
        } else {
            0nat
        }
    }
}

/// Number of call sites of `calls` that name `name`, over all callers.
pub open spec fn call_sites(calls: Seq<(Seq<char>, Seq<Seq<char>>)>, name: Seq<char>) -> nat
    decreases calls.len(),
{
    if calls.len() == 0 {
        0
    } else {
        call_sites(calls.drop_last(), name) + occurrences(calls.last().1, name)
    }
}

/// The count that a tally holds for a name, none counting as zero.
pub open spec fn counted(tally: Seq<(Seq<char>, usize)>, name: Seq<char>) -> nat {
    match lookup(tally, name) {
        Some(count) => count as nat,
        None => 0,
    }
}

/// Tallying `names` adds to the count of a name the number of times it
/// stands in `names`, up to `usize::MAX`, and gives no entry to a name that
/// has none and does not stand in `names`.
pub proof fn lemma_tally_names(
    tally: Seq<(Seq<char>, usize)>,
    names: Seq<Seq<char>>,
    name: Seq<char>,
)
    ensures
        lookup(tally_names(tally, names), name) == if lookup(tally, name) is None && occurrences(
            names,
            name,
        ) == 0 {
            None
        } else {
            Some(capped(counted(tally, name) + occurrences(names, name)))
        },
    decreases names.len(),
{
    if names.len() > 0 {
        let before = tally_names(tally, names.drop_last());
        lemma_tally_names(tally, names.drop_last(), name);
        lemma_put(before, names.last(), bump(lookup(before, names.last())), name);
    }
}

/// The tally of a call graph holds for every callee the number of call
/// sites that name it, counted over all callers and up to `usize::MAX`, and
/// holds no other name.
pub proof fn lemma_tally_counts(calls: Seq<(Seq<char>, Seq<Seq<char>>)>, name: Seq<char>)
    ensures
        lookup(tally_calls(calls), name) == if call_sites(calls, name) == 0 {
            None
        } else {
            Some(capped(call_sites(calls, name)))
        },
    decreases calls.len(),
{
    if calls.len() > 0 {
        lemma_tally_counts(calls.drop_last(), name);
        lemma_tally_names(tally_calls(calls.drop_last()), calls.last().1, name);
    } else {
        assert(lookup(tally_calls(calls), name) is None);
    }
}

} // verus!
