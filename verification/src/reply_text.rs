//! Reply text for the messaging component: confirmation phrases and plant
//! facts, one picked at random per reply.

use vstd::prelude::*;

verus! {

/// Relies on rand::random_range over `0..n`: returns a value of the
/// non-empty range, so always below `n`.
#[verifier::external_body]
fn random_below(n: usize) -> (r: usize)
    requires
        n >= 1,
    ensures
        r < n,
{
    rand::random_range(0..n)
}

/// The confirmation phrases a reply may pick from.
pub open spec fn spec_confirmation_phrases() -> Seq<Seq<char>> {
    seq![
        "Consider it done!"@,
        "What else I can do for you?"@,
        "That's it? I can do more!"@,
        "I'm done but I can't stop thinking about my purpose... What is my purpose?"@,
    ]
}

/// The plant facts a reply may pick from.
pub open spec fn spec_facts() -> Seq<Seq<char>> {
    seq![
        "plants can photosynthesize due to cells called chloroplasts that contain chlorophyll; this is what makes plants green. Sun strikes the chloroplasts and combines with carbon dioxide that plants get from their leaves, and water that plants get through their roots, to produce sugar, or glucose. This is the plant's food, and this gives the plant energy to grow and produce flowers"@,
        "plants take in carbon dioxide, or CO 2 ,through little holes in their leaves, which are called stomata. They then produce and release oxygen through the stomata. Plants and animals were meant to live together! Animals need the oxygen that plants put out, and plants need the carbon dioxide that animals put out"@,
        "sometimes people add fertilizer, or plant food, to give plants extra minerals and nutrients so that they can grow better. Fertilizer does not take the place of sunlight and water"@,
        "flowers did not always exist; they first appeared 140 million years ago. Before that, ferns and cone bearing trees dominated the earth"@,
        "several centuries ago in Holland, tulips were more valuable than gold"@,
        "broccoli is actually a flower"@,
        "some plants such as orchids do not need soil to grow-they get all of their nutrients from the air"@,
        "some plants produce toxic substances that kill other plants around them-the sunflower is an example"@,
        "the largest Flower in the world is the flower of the Puya raimondii, which has a flower stalk 35,000 feet tall and bears over 8,000 white flowers"@,
        "in the US, almost 60% of all freshly cut flowers are grown in California"@,
        "the heads of sunflowers move throughout the day to follow the route of the sun from the east to the west"@,
        "there are more than 400,000 plants which flower in the world, but many have not been discovered yet so that number is likely to be higher"@,
        "the most expensive flower ever sold is a Shenzhen Nongke Orchid. It took eight years to develop and it only blooms once every four to five years, but it was sold for $200,000 at an auction"@,
        "lilies are beautiful flowers, but they are highly toxic for cats"@,
        "scientists managed to resurrect a 32,000 years old Arctic flower in Siberia by using seeds buried by an Ice Age squirrel"@,
        "certain flowers only release pollen when they can feel a bee buzzing on them"@,
        "National Geographic estimates that about 571 species of flowers have already gone extinct since the 1750s"@,
        "in 2010, around 198 million roses were produced for Valentine's Day"@,
        "of the 400,000 species of flower plants which exist in the world, over 35 000 are species of roses"@,
        "roses are related to apples, cherries, raspberries, peaches, pears and almonds"@,
        "the world's oldest flower bloomed about 125 million years ago. It was discovered in 2002 in China and it resembles a water lily"@,
        "the Oleander is the official flower of the city of Hiroshima in Japan as it was the first thing to bloom after the atomic bomb explosion in 1945"@,
    ]
}

/// The confirmation phrases, as runtime strings, in order.
pub fn confirmation_phrases() -> (r: Vec<String>)
    ensures
        r@.len() == spec_confirmation_phrases().len(),
        forall|i: int|
            0 <= i < r@.len() ==> (#[trigger] r@[i])@ == spec_confirmation_phrases()[i],
{
    let mut v: Vec<String> = Vec::new();
    v.push("Consider it done!".to_owned());
    v.push("What else I can do for you?".to_owned());
    v.push("That's it? I can do more!".to_owned());
    v.push("I'm done but I can't stop thinking about my purpose... What is my purpose?".to_owned());
    v
}

/// The plant facts, as runtime strings, in order.
pub fn facts() -> (r: Vec<String>)
    ensures
        r@.len() == spec_facts().len(),
        forall|i: int| 0 <= i < r@.len() ==> (#[trigger] r@[i])@ == spec_facts()[i],
{
    let mut v: Vec<String> = Vec::new();
    v.push("plants can photosynthesize due to cells called chloroplasts that contain chlorophyll; this is what makes plants green. Sun strikes the chloroplasts and combines with carbon dioxide that plants get from their leaves, and water that plants get through their roots, to produce sugar, or glucose. This is the plant's food, and this gives the plant energy to grow and produce flowers".to_owned());
    v.push("plants take in carbon dioxide, or CO 2 ,through little holes in their leaves, which are called stomata. They then produce and release oxygen through the stomata. Plants and animals were meant to live together! Animals need the oxygen that plants put out, and plants need the carbon dioxide that animals put out".to_owned());
    v.push("sometimes people add fertilizer, or plant food, to give plants extra minerals and nutrients so that they can grow better. Fertilizer does not take the place of sunlight and water".to_owned());
    v.push("flowers did not always exist; they first appeared 140 million years ago. Before that, ferns and cone bearing trees dominated the earth".to_owned());
    v.push("several centuries ago in Holland, tulips were more valuable than gold".to_owned());
    v.push("broccoli is actually a flower".to_owned());
    v.push("some plants such as orchids do not need soil to grow-they get all of their nutrients from the air".to_owned());
    v.push("some plants produce toxic substances that kill other plants around them-the sunflower is an example".to_owned());
    v.push("the largest Flower in the world is the flower of the Puya raimondii, which has a flower stalk 35,000 feet tall and bears over 8,000 white flowers".to_owned());
    v.push("in the US, almost 60% of all freshly cut flowers are grown in California".to_owned());
    v.push("the heads of sunflowers move throughout the day to follow the route of the sun from the east to the west".to_owned());
    v.push("there are more than 400,000 plants which flower in the world, but many have not been discovered yet so that number is likely to be higher".to_owned());
    v.push("the most expensive flower ever sold is a Shenzhen Nongke Orchid. It took eight years to develop and it only blooms once every four to five years, but it was sold for $200,000 at an auction".to_owned());
    v.push("lilies are beautiful flowers, but they are highly toxic for cats".to_owned());
    v.push("scientists managed to resurrect a 32,000 years old Arctic flower in Siberia by using seeds buried by an Ice Age squirrel".to_owned());
    v.push("certain flowers only release pollen when they can feel a bee buzzing on them".to_owned());
    v.push("National Geographic estimates that about 571 species of flowers have already gone extinct since the 1750s".to_owned());
    v.push("in 2010, around 198 million roses were produced for Valentine's Day".to_owned());
    v.push("of the 400,000 species of flower plants which exist in the world, over 35 000 are species of roses".to_owned());
    v.push("roses are related to apples, cherries, raspberries, peaches, pears and almonds".to_owned());
    v.push("the world's oldest flower bloomed about 125 million years ago. It was discovered in 2002 in China and it resembles a water lily".to_owned());
    v.push("the Oleander is the official flower of the city of Hiroshima in Japan as it was the first thing to bloom after the atomic bomb explosion in 1945".to_owned());
    v
}

/// Picks an element of `elements` at random; the empty sequence yields the
/// empty string.
pub fn get_random_element(elements: &Vec<String>) -> (r: String)
    ensures
        elements@.len() == 0 ==> r@ == Seq::<char>::empty(),
        elements@.len() > 0 ==> exists|i: int| 0 <= i < elements@.len() && r@ == (
        #[trigger] elements@[i])@,
{
    if elements.len() == 0 {
        return String::new();
    }
    let idx = random_below(elements.len());
    elements[idx].clone()
}

/// A random confirmation phrase.
pub fn get_confirmation_phrase() -> (r: String)
    ensures
        exists|i: int|
            0 <= i < spec_confirmation_phrases().len() && r@ == spec_confirmation_phrases()[i],
{
    let phrases = confirmation_phrases();
    get_random_element(&phrases)
}

/// A random plant fact.
pub fn get_fact() -> (r: String)
    ensures
        exists|i: int| 0 <= i < spec_facts().len() && r@ == spec_facts()[i],
{
    let all = facts();
    get_random_element(&all)
}

} // verus!
