use vstd::prelude::*;
use crate::pattern::{compile, pattern_compiles, replaced_all, PatternError};

verus! {

/// A named rewrite rule: every match of `pattern` becomes `replacement`,
/// which may refer to capture groups (`$1`).
#[derive(Clone, Debug)]
pub struct Recipe {
    pub name: String,
    pub pattern: String,
    pub replacement: String,
}

/// What applying `recipe` to `input` gives: the rewritten text, or `None`
/// when its pattern does not compile.
pub open spec fn applied(input: Seq<char>, recipe: Recipe) -> Option<Seq<char>> {
    if pattern_compiles(recipe.pattern@) {
        Some(replaced_all(recipe.pattern@, input, recipe.replacement@))
    } else {
        None
    }
}

/// Whether `recipe` compiles and changes `input`.
pub open spec fn changes(input: Seq<char>, recipe: Recipe) -> bool {
    applied(input, recipe) matches Some(out) && out != input
}

/// The output of the first recipe at or after `start` that changes `input`.
pub open spec fn first_fix_from(input: Seq<char>, recipes: Seq<Recipe>, start: int) -> Option<
    Seq<char>,
>
    decreases recipes.len() - start,
{
    if start < 0 || start >= recipes.len() {
        None
    } else if changes(input, recipes[start]) {
        applied(input, recipes[start])
    } else {
        first_fix_from(input, recipes, start + 1)
    }
}

/// The output of the first recipe in list order that changes `input`.
pub open spec fn first_fix(input: Seq<char>, recipes: Seq<Recipe>) -> Option<Seq<char>> {
    first_fix_from(input, recipes, 0)
}

proof fn lemma_first_fix_from_is_earliest(input: Seq<char>, recipes: Seq<Recipe>, start: int)
    requires
        0 <= start <= recipes.len(),
    ensures
        first_fix_from(input, recipes, start) matches Some(out) ==> exists|i: int|
            start <= i < recipes.len() && changes(input, recipes[i]) && applied(input, recipes[i])
                == Some(out) && forall|j: int| start <= j < i ==> !changes(input, recipes[j]),
        first_fix_from(input, recipes, start) is None ==> forall|i: int|
            start <= i < recipes.len() ==> !changes(input, recipes[i]),
    decreases recipes.len() - start,
{
    if start < recipes.len() {
        lemma_first_fix_from_is_earliest(input, recipes, start + 1);
        if !changes(input, recipes[start]) {
            if let Some(out) = first_fix_from(input, recipes, start) {
                let i = choose|i: int|
                    start + 1 <= i < recipes.len() && changes(input, recipes[i]) && applied(
                        input,
                        recipes[i],
                    ) == Some(out) && forall|j: int| start + 1 <= j < i ==> !changes(input, recipes[j]);
                assert(forall|j: int| start <= j < i ==> !changes(input, recipes[j]));
            }
        }
    }
}

/// First change wins: when a list of recipes yields a fix, it is the
/// output of a recipe that changes the input and that no earlier recipe
/// precedes with a change; when it yields none, no recipe changes the input.
pub proof fn lemma_first_change_wins(input: Seq<char>, recipes: Seq<Recipe>)
    ensures
        first_fix(input, recipes) matches Some(out) ==> exists|i: int|
            0 <= i < recipes.len() && changes(input, recipes[i]) && applied(input, recipes[i])
                == Some(out) && forall|j: int| 0 <= j < i ==> !changes(input, recipes[j]),
        first_fix(input, recipes) is None ==> forall|i: int|
            0 <= i < recipes.len() ==> !changes(input, recipes[i]),
{
    lemma_first_fix_from_is_earliest(input, recipes, 0);
}

proof fn lemma_first_fix_from_append(
    input: Seq<char>,
    head: Seq<Recipe>,
    tail: Seq<Recipe>,
    start: int,
)
    requires
        0 <= start <= head.len(),
        first_fix_from(input, head, start) is Some,
    ensures
        first_fix_from(input, head + tail, start) == first_fix_from(input, head, start),
    decreases head.len() - start,
{
    assert((head + tail)[start] == head[start]);
    if !changes(input, head[start]) {
        lemma_first_fix_from_append(input, head, tail, start + 1);
    }
}

/// Later recipes are never reflected: once a list of recipes yields a fix,
/// appending any further recipes, matching or not, leaves that fix as it is.
pub proof fn lemma_later_recipes_ignored(input: Seq<char>, head: Seq<Recipe>, tail: Seq<Recipe>)
    requires
        first_fix(input, head) is Some,
    ensures
        first_fix(input, head + tail) == first_fix(input, head),
{
    lemma_first_fix_from_append(input, head, tail, 0);
}

/// Applies one recipe: every match of its pattern in `input` is replaced.
/// A pattern that does not compile is reported, not fatal.
pub fn apply_recipe(input: &str, recipe: &Recipe) -> (r: Result<String, PatternError>)
    ensures
        r is Ok <==> pattern_compiles(recipe.pattern@),
        r matches Ok(out) ==> applied(input@, *recipe) == Some(out@),
        r matches Err(e) ==> e.pattern@ == recipe.pattern@,
{
    let p = compile(recipe.pattern.as_str())?;
    Ok(p.replace_all(input, recipe.replacement.as_str()))
}

/// Applies `recipe` to `input`; see `apply_recipe`.
pub fn fix_url(input: &str, recipe: Recipe) -> (r: Result<String, PatternError>)
    ensures
        r is Ok <==> pattern_compiles(recipe.pattern@),
        r matches Ok(out) ==> applied(input@, recipe) == Some(out@),
        r matches Err(e) ==> e.pattern@ == recipe.pattern@,
{
    apply_recipe(input, &recipe)
}

/// Returns the output of the first recipe, in list order, whose application
/// changes `input`. Recipes that leave the text alone, or whose pattern does
/// not compile, are skipped; outputs are never fed to later recipes.
pub fn find_a_fix(input: &str, recipes: Vec<Recipe>) -> (r: Option<String>)
    ensures
        r matches Some(out) ==> first_fix(input@, recipes@) == Some(out@),
        r is None <==> first_fix(input@, recipes@) is None,
        recipes@.len() == 0 ==> r is None,
{
    let original = input.to_owned();
    let mut i: usize = 0;
    while i < recipes.len()
        invariant
            i <= recipes@.len(),
            original@ == input@,
            first_fix(input@, recipes@) == first_fix_from(input@, recipes@, i as int),
        decreases recipes@.len() - i,
    {
        if let Ok(fixed) = apply_recipe(input, &recipes[i]) {
            if !(fixed == original) {
                return Some(fixed);
            }
        }
        i = i + 1;
    }
    None
}

} // verus!
