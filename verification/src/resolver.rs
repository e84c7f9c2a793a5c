use vstd::prelude::*;

use crate::types::{CellData, CellDataV, CellOutputV, ScriptV};

verus! {

/// The mathematical values of a list of cells with data.
pub open spec fn cells_view(s: Seq<CellData>) -> Seq<CellDataV> {
    s.map_values(|x: CellData| x@)
}

/// Whether a cell's type authorization is exactly the expected policy.
pub open spec fn cell_type_matches(c: CellOutputV, expected: ScriptV) -> bool {
    match c.type_ {
        Option::Some(t) => t == expected,
        Option::None => false,
    }
}

/// The position of the first cell whose type authorization is the expected
/// policy, if any.
pub open spec fn find_config(cells: Seq<CellDataV>, expected: ScriptV) -> Option<int>
    decreases cells.len(),
{
    if cells.len() == 0 {
        Option::None
    } else if cell_type_matches(cells[0].cell, expected) {
        Option::Some(0)
    } else {
        match find_config(cells.drop_first(), expected) {
            Option::Some(i) => Option::Some(i + 1),
            Option::None => Option::None,
        }
    }
}

/// What `find_config` finds: the first match, and only a match.
pub proof fn lemma_find_config_characterizes(cells: Seq<CellDataV>, expected: ScriptV)
    ensures
        match find_config(cells, expected) {
            Option::Some(i) => 0 <= i < cells.len() && cell_type_matches(cells[i].cell, expected)
                && forall|j: int| 0 <= j < i ==> !cell_type_matches(cells[j].cell, expected),
            Option::None => forall|j: int|
                0 <= j < cells.len() ==> !cell_type_matches(cells[j].cell, expected),
        },
    decreases cells.len(),
{
    if cells.len() > 0 {
        let d = cells.drop_first();
        lemma_find_config_characterizes(d, expected);
        assert forall|j: int| 0 <= j < d.len() implies #[trigger] d[j] == cells[j + 1] by {}
        if !cell_type_matches(cells[0].cell, expected) {
            match find_config(d, expected) {
                Option::Some(i) => {
                    assert(find_config(cells, expected) == Option::Some(i + 1));
                    assert forall|j: int| 0 <= j < i + 1 implies !cell_type_matches(
                        #[trigger] cells[j].cell,
                        expected,
                    ) by {
                        if j > 0 {
                            assert(cells[j] == d[j - 1]);
                        }
                    }
                },
                Option::None => {
                    assert forall|j: int| 0 <= j < cells.len() implies !cell_type_matches(
                        #[trigger] cells[j].cell,
                        expected,
                    ) by {
                        if j > 0 {
                            assert(cells[j] == d[j - 1]);
                        }
                    }
                },
            }
        }
    }
}

/// Finds the singleton metadata cell among candidate cells: the first one
/// whose type authorization equals the type-id policy built from the given
/// 32-byte argument.
pub fn find_ssri_config_cell(cells: &Vec<CellData>, type_id_args: &Vec<u8>) -> (r: Option<usize>)
    ensures
        match r {
            Option::Some(i) => find_config(
                cells_view(cells@),
                crate::config::type_id_script_v(type_id_args@),
            ) == Option::Some(i as int),
            Option::None => find_config(
                cells_view(cells@),
                crate::config::type_id_script_v(type_id_args@),
            ) is None,
        },
{
    let ghost cv = cells_view(cells@);
    let ghost expected = crate::config::type_id_script_v(type_id_args@);
    let target = crate::config::type_id_script(type_id_args);
    let n = cells.len();
    let mut i: usize = 0;
    while i < n
        invariant
            n == cells@.len(),
            cv == cells_view(cells@),
            expected == crate::config::type_id_script_v(type_id_args@),
            target@ == expected,
            cv.len() == n,
            i <= n,
            forall|j: int| 0 <= j < i ==> !cell_type_matches(cv[j].cell, expected),
        decreases n - i,
    {
        proof {
            assert(cv[i as int] == cells@[i as int]@);
        }
        let hit = match &cells[i].cell.type_ {
            Option::Some(t) => {
                let code_ok = crate::balance::bytes_eq(&t.code_hash, &target.code_hash);
                let args_ok = crate::balance::bytes_eq(&t.args, &target.args);
                code_ok && t.hash_type == target.hash_type && args_ok
            },
            Option::None => false,
        };
        if hit {
            proof {
                assert(cell_type_matches(cv[i as int].cell, expected));
                lemma_find_config_characterizes(cv, expected);
                if find_config(cv, expected) is None {
                    assert(false);
                }
            }
            return Option::Some(i);
        }
        proof {
            assert(!cell_type_matches(cv[i as int].cell, expected));
        }
        i = i + 1;
    }
    proof {
        lemma_find_config_characterizes(cv, expected);
    }
    Option::None
}

} // verus!
