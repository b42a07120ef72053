use vstd::prelude::*;

use rand::Rng;

use crate::node::{decimal, push_decimal};

verus! {

/// `rand::rngs::ThreadRng`, the random number generator of a thread, known
/// to Verus only by name: nothing inside it is visible.
#[verifier::external_type_specification]
#[verifier::external_body]
pub struct ExThreadRng(rand::rngs::ThreadRng);

/// Calls `rand::thread_rng`, which hands out the random number generator of
/// the current thread. Nothing is claimed of the generator.
#[verifier::external_body]
fn thread_rng() -> rand::rngs::ThreadRng {
    rand::thread_rng()
}

/// Calls `rand::Rng::gen_range` on the range `low..high`. Its documentation
/// promises a value of the range; which one is chance. It panics on an empty
/// range, which the `requires` leaves out.
#[verifier::external_body]
fn gen_range(rng: &mut rand::rngs::ThreadRng, low: u64, high: u64) -> (r: u64)
    requires
        low < high,
    ensures
        low <= r < high,
{
    rng.gen_range(low..high)
}

/// Creates a random port number between 3000 (included) and 9000 (excluded).
pub fn random_port() -> (r: u16)
    ensures
        3000 <= r < 9000,
{
    let mut rng = thread_rng();
    let port = gen_range(&mut rng, 3000, 9000);
    port as u16
}

/// The names philosophers are named after.
pub open spec fn philosopher_names() -> Seq<Seq<char>> {
    seq![
        "Aristotle"@,
        "Plato"@,
        "Socrates"@,
        "Kant"@,
        "Hume"@,
        "Locke"@,
        "Descartes"@,
        "Nietzsche"@,
        "Wittgenstein"@,
        "Hegel"@,
        "Marx"@,
        "Russell"@,
        "Heidegger"@,
        "Kierkegaard"@,
        "Sartre"@,
        "Camus"@,
        "Foucault"@,
        "Derrida"@,
        "Deleuze"@,
        "Zizek"@,
    ]
}

/// The kinds of cutlery pieces are named after.
pub open spec fn cutlery_names() -> Seq<Seq<char>> {
    seq![
        "Fork"@,
        "Spoon"@,
        "Knife"@,
        "Chopsticks"@,
        "Spork"@,
        "Splayd"@,
        "Trongs"@,
        "Chork"@,
        "Knork"@,
    ]
}

/// The name of a philosopher made of two names and a number.
pub open spec fn spec_philosopher_name(first: int, second: int, number: nat) -> Seq<char> {
    philosopher_names()[first] + " "@ + philosopher_names()[second] + " "@ + decimal(number)
}

/// The name of a piece of cutlery made of a kind and a number.
pub open spec fn spec_cutlery_name(kind: int, number: nat) -> Seq<char> {
    cutlery_names()[kind] + " "@ + decimal(number)
}

fn philosopher_name_text(i: usize) -> (r: &'static str)
    requires
        i < philosopher_names().len(),
    ensures
        r@ == philosopher_names()[i as int],
{
    if i == 0 {
        "Aristotle"
    } else if i == 1 {
        "Plato"
    } else if i == 2 {
        "Socrates"
    } else if i == 3 {
        "Kant"
    } else if i == 4 {
        "Hume"
    } else if i == 5 {
        "Locke"
    } else if i == 6 {
        "Descartes"
    } else if i == 7 {
        "Nietzsche"
    } else if i == 8 {
        "Wittgenstein"
    } else if i == 9 {
        "Hegel"
    } else if i == 10 {
        "Marx"
    } else if i == 11 {
        "Russell"
    } else if i == 12 {
        "Heidegger"
    } else if i == 13 {
        "Kierkegaard"
    } else if i == 14 {
        "Sartre"
    } else if i == 15 {
        "Camus"
    } else if i == 16 {
        "Foucault"
    } else if i == 17 {
        "Derrida"
    } else if i == 18 {
        "Deleuze"
    } else {
        "Zizek"
    }
}

fn cutlery_name_text(i: usize) -> (r: &'static str)
    requires
        i < cutlery_names().len(),
    ensures
        r@ == cutlery_names()[i as int],
{
    if i == 0 {
        "Fork"
    } else if i == 1 {
        "Spoon"
    } else if i == 2 {
        "Knife"
    } else if i == 3 {
        "Chopsticks"
    } else if i == 4 {
        "Spork"
    } else if i == 5 {
        "Splayd"
    } else if i == 6 {
        "Trongs"
    } else if i == 7 {
        "Chork"
    } else {
        "Knork"
    }
}

/// The philosopher name made of the names numbered `first` and `second` and
/// of `number`.
pub fn philosopher_name(first: usize, second: usize, number: u64) -> (r: String)
    requires
        first < philosopher_names().len(),
        second < philosopher_names().len(),
    ensures
        r@ == spec_philosopher_name(first as int, second as int, number as nat),
{
    let mut name = String::from_str(philosopher_name_text(first));
    name.append(" ");
    name.append(philosopher_name_text(second));
    name.append(" ");
    push_decimal(&mut name, number);
    name
}

/// The cutlery name made of the kind numbered `kind` and of `number`.
pub fn cutlery_name(kind: usize, number: u64) -> (r: String)
    requires
        kind < cutlery_names().len(),
    ensures
        r@ == spec_cutlery_name(kind as int, number as nat),
{
    let mut name = String::from_str(cutlery_name_text(kind));
    name.append(" ");
    push_decimal(&mut name, number);
    name
}

/// Creates a random philosopher name: two names of philosophers and a
/// number below 1000.
pub fn random_philosopher_name() -> (r: String)
    ensures
        exists|first: int, second: int, number: nat|
            0 <= first < philosopher_names().len() && 0 <= second < philosopher_names().len()
                && number < 1000 && r@ == spec_philosopher_name(first, second, number),
{
    let mut rng = thread_rng();
    let number = gen_range(&mut rng, 0, 1000);
    let first = gen_range(&mut rng, 0, 20) as usize;
    let second = gen_range(&mut rng, 0, 20) as usize;
    let name = philosopher_name(first, second, number);
    assert(name@ == spec_philosopher_name(first as int, second as int, number as nat));
    name
}

/// Creates a random cutlery name: a kind of cutlery and a number below 1000.
pub fn random_cutlery_name() -> (r: String)
    ensures
        exists|kind: int, number: nat|
            0 <= kind < cutlery_names().len() && number < 1000 && r@ == spec_cutlery_name(
                kind,
                number,
            ),
{
    let mut rng = thread_rng();
    let kind = gen_range(&mut rng, 0, 9) as usize;
    let number = gen_range(&mut rng, 0, 1000);
    let name = cutlery_name(kind, number);
    assert(name@ == spec_cutlery_name(kind as int, number as nat));
    name
}

} // verus!
