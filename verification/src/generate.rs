//! Generating a password, symbol by symbol.
//!
//! Every symbol takes two draws from the random source: the position of a
//! group in the list of selected groups, and a code of that group. The
//! password is a function of the draws alone, so a recorded sequence of draws
//! always gives the same password.

use crate::classes::{
    lemma_selected_classes, permitted, select_classes, selected_classes, selects, CharacterClass,
};
use crate::trusted::random_in_range;
use vstd::prelude::*;

verus! {

/// The two values drawn for one symbol of a password.
#[derive(Clone, Copy, Debug, PartialEq, Eq, Structural)]
pub struct Draw {
    /// The position of the picked group in the list of selected groups.
    pub class_index: usize,
    /// The code picked from that group.
    pub code: u8,
}

/// Whether the random source can return `draw` when it picks from `classes`:
/// the position names one of the groups, and the code is one of that group.
pub open spec fn admissible(classes: Seq<CharacterClass>, draw: Draw) -> bool {
    &&& draw.class_index < classes.len()
    &&& classes[draw.class_index as int].covers(draw.code as nat)
}

/// Whether every one of `draws` is admissible for `classes`.
pub open spec fn all_admissible(classes: Seq<CharacterClass>, draws: Seq<Draw>) -> bool {
    forall|i: int| 0 <= i < draws.len() ==> admissible(classes, #[trigger] draws[i])
}

/// The symbol that a draw gives: the one with the drawn code.
pub open spec fn symbol_of(draw: Draw) -> char {
    draw.code as char
}

/// The password that a sequence of draws gives: one symbol for each draw, in
/// the order of the draws.
pub open spec fn password_of(draws: Seq<Draw>) -> Seq<char> {
    Seq::new(draws.len(), |i: int| symbol_of(draws[i]))
}

/// The password that a request gives when the random source returns `draws`.
/// There is none when no group is selected, when the number of draws is not
/// the requested length, or when a draw is not admissible.
pub open spec fn replayed(
    include_uppercase: bool,
    include_lowercase: bool,
    include_digits: bool,
    length: u32,
    draws: Seq<Draw>,
) -> Option<Seq<char>> {
    let classes = selected_classes(include_uppercase, include_lowercase, include_digits);
    if classes.len() > 0 && draws.len() == length && all_admissible(classes, draws) {
        Some(password_of(draws))
    } else {
        None
    }
}

/// The symbol of a draw that is admissible for the selected groups belongs to
/// a selected group, and to no other group.
pub proof fn lemma_admissible_symbol_is_permitted(
    include_uppercase: bool,
    include_lowercase: bool,
    include_digits: bool,
    draw: Draw,
)
    requires
        admissible(selected_classes(include_uppercase, include_lowercase, include_digits), draw),
    ensures
        permitted(include_uppercase, include_lowercase, include_digits, symbol_of(draw)),
{
    let classes = selected_classes(include_uppercase, include_lowercase, include_digits);
    let class = classes[draw.class_index as int];
    lemma_selected_classes(include_uppercase, include_lowercase, include_digits);
    assert(classes.contains(class));
    assert(selects(include_uppercase, include_lowercase, include_digits, class));
    assert(symbol_of(draw) as nat == draw.code as nat);
}

/// A password has one symbol for each draw, and when every draw is admissible
/// for the selected groups, every symbol belongs to a selected group and to
/// no other group.
pub proof fn lemma_password_is_permitted(
    include_uppercase: bool,
    include_lowercase: bool,
    include_digits: bool,
    draws: Seq<Draw>,
)
    requires
        all_admissible(
            selected_classes(include_uppercase, include_lowercase, include_digits),
            draws,
        ),
    ensures
        password_of(draws).len() == draws.len(),
        forall|i: int|
            0 <= i < draws.len() ==> permitted(
                include_uppercase,
                include_lowercase,
                include_digits,
                #[trigger] password_of(draws)[i],
            ),
{
    assert forall|i: int| 0 <= i < draws.len() implies permitted(
        include_uppercase,
        include_lowercase,
        include_digits,
        #[trigger] password_of(draws)[i],
    ) by {
        lemma_admissible_symbol_is_permitted(
            include_uppercase,
            include_lowercase,
            include_digits,
            draws[i],
        );
    }
}

/// Two sequences of draws that agree at every position give the same
/// password for the same request: the password depends on nothing else.
pub proof fn lemma_same_draws_same_password(
    include_uppercase: bool,
    include_lowercase: bool,
    include_digits: bool,
    length: u32,
    first: Seq<Draw>,
    second: Seq<Draw>,
)
    requires
        first.len() == second.len(),
        forall|i: int| 0 <= i < first.len() ==> first[i] == second[i],
    ensures
        replayed(include_uppercase, include_lowercase, include_digits, length, first) == replayed(
            include_uppercase,
            include_lowercase,
            include_digits,
            length,
            second,
        ),
{
    assert(first =~= second);
}

/// Draws the two values for one symbol: first the position of a group in
/// `choices`, then a code of the group at that position.
fn random_draw(generator: &mut rand::rngs::ThreadRng, choices: &Vec<CharacterClass>) -> (draw: Draw)
    requires
        choices.len() > 0,
    ensures
        admissible(choices@, draw),
{
    let class_index = random_in_range(generator, 0, choices.len());
    let (first, end) = choices[class_index].code_range();
    let code = random_in_range(generator, first as usize, end as usize);
    Draw { class_index, code: code as u8 }
}

/// The symbol that a draw gives.
pub fn symbol_from_draw(draw: Draw) -> (symbol: char)
    ensures
        symbol == symbol_of(draw),
{
    draw.code as char
}

/// Picks one symbol at random: first one of the selected groups, each with
/// the same chance, then one symbol of that group, each with the same chance.
pub fn get_random_symbol(include_upper: bool, include_lower: bool, include_num: bool) -> (symbol:
    char)
    requires
        include_upper || include_lower || include_num,
    ensures
        permitted(include_upper, include_lower, include_num, symbol),
        exists|draw: Draw|
            admissible(selected_classes(include_upper, include_lower, include_num), draw)
                && symbol == #[trigger] symbol_of(draw),
{
    let mut generator = rand::thread_rng();
    let choices = select_classes(include_upper, include_lower, include_num);
    proof {
        lemma_selected_classes(include_upper, include_lower, include_num);
    }
    let draw = random_draw(&mut generator, &choices);
    proof {
        lemma_admissible_symbol_is_permitted(include_upper, include_lower, include_num, draw);
    }
    symbol_from_draw(draw)
}

/// Generates a password of `length` symbols, each picked at random and
/// independently of the others from the selected groups.
pub fn generate(
    include_uppercase: bool,
    include_lowercase: bool,
    include_digits: bool,
    length: u32,
) -> (password: String)
    requires
        include_uppercase || include_lowercase || include_digits,
    ensures
        password@.len() == length,
        forall|i: int|
            0 <= i < length ==> permitted(
                include_uppercase,
                include_lowercase,
                include_digits,
                #[trigger] password@[i],
            ),
        exists|draws: Seq<Draw>| #[trigger]
            replayed(include_uppercase, include_lowercase, include_digits, length, draws) == Some(
                password@,
            ),
{
    let mut password = String::new();
    let ghost mut draws: Seq<Draw> = Seq::empty();
    let ghost classes = selected_classes(include_uppercase, include_lowercase, include_digits);
    for position in 0..length
        invariant
            include_uppercase || include_lowercase || include_digits,
            classes == selected_classes(include_uppercase, include_lowercase, include_digits),
            draws.len() == position,
            all_admissible(classes, draws),
            password@ == password_of(draws),
    {
        let symbol = get_random_symbol(include_uppercase, include_lowercase, include_digits);
        password.push(symbol);
        proof {
            let draw = choose|draw: Draw|
                admissible(classes, draw) && symbol == #[trigger] symbol_of(draw);
            draws = draws.push(draw);
        }
    }
    proof {
        lemma_selected_classes(include_uppercase, include_lowercase, include_digits);
        lemma_password_is_permitted(include_uppercase, include_lowercase, include_digits, draws);
        assert(replayed(include_uppercase, include_lowercase, include_digits, length, draws)
            == Some(password@));
    }
    password
}

/// Generates the password of a request from recorded draws in place of the
/// random source: the draw at each position gives the symbol at that position.
///
/// There is a password when at least one group is selected, there is one
/// draw for each of the `length` symbols, and every draw is admissible for the
/// selected groups. The same request and the same draws always give the same
/// password.
pub fn password_from_draws(
    include_uppercase: bool,
    include_lowercase: bool,
    include_digits: bool,
    length: u32,
    draws: &[Draw],
) -> (password: Option<String>)
    ensures
        match password {
            Some(text) => replayed(
                include_uppercase,
                include_lowercase,
                include_digits,
                length,
                draws@,
            ) == Some(text@),
            None => replayed(
                include_uppercase,
                include_lowercase,
                include_digits,
                length,
                draws@,
            ) is None,
        },
        password is Some ==> password->0@.len() == length,
        password is Some ==> forall|i: int|
            0 <= i < length ==> permitted(
                include_uppercase,
                include_lowercase,
                include_digits,
                #[trigger] password->0@[i],
            ),
{
    let choices = select_classes(include_uppercase, include_lowercase, include_digits);
    if choices.len() == 0 || draws.len() != length as usize {
        return None;
    }
    let mut password = String::new();
    for position in 0..draws.len()
        invariant
            choices@ == selected_classes(include_uppercase, include_lowercase, include_digits),
            all_admissible(choices@, draws@.take(position as int)),
            password@ == password_of(draws@.take(position as int)),
    {
        let draw = draws[position];
        if draw.class_index >= choices.len() {
            return None;
        }
        let (first, end) = choices[draw.class_index].code_range();
        if draw.code < first || draw.code >= end {
            return None;
        }
        password.push(symbol_from_draw(draw));
        proof {
            assert(draws@.take(position + 1) == draws@.take(position as int).push(draw));
        }
    }
    proof {
        assert(draws@.take(draws.len() as int) == draws@);
        lemma_password_is_permitted(include_uppercase, include_lowercase, include_digits, draws@);
    }
    Some(password)
}

} // verus!
