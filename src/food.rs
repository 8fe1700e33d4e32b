//! The closed set of item kinds that balls and pegs carry, with their
//! category, edibility and sprite path, and the random pickers over them.

use vstd::prelude::*;

use crate::rng::random_index;

verus! {

/// The broad class an item belongs to.
#[derive(Debug, Clone, Copy, PartialEq, Eq, Structural)]
pub enum DropCategory {
    Fruit,
    Veg,
    Bakery,
    Produce,
    Tech,
    Drug,
    Special,
}

/// Every kind of item a ball or a peg can carry.
#[derive(Debug, Clone, Copy, PartialEq, Eq, Structural, Hash)]
pub enum DropType {
    Apple,
    Bagel,
    Ball,
    Bell,
    Bun,
    Cassette,
    Cauliflower,
    Cd,
    Cheese,
    Cherry,
    Crown,
    Diamond,
    Donut,
    Egg,
    FriedEgg,
    Garlic,
    Grapes,
    Headphones,
    Lemon,
    Lettuce,
    Money,
    Mouth,
    Mushroom,
    Onion,
    Orange,
    Pepper,
    Pill,
    Pumpkin,
    Ramen,
    Salt,
    Seven,
    Shot,
    Weed,
}

/// The sprite path of each item kind.
pub open spec fn spec_path(d: DropType) -> Seq<char> {
    match d {
        DropType::Apple => "droppables/apple.png"@,
        DropType::Bagel => "droppables/bagel.png"@,
        DropType::Ball => "droppables/ball.png"@,
        DropType::Bell => "droppables/bell.png"@,
        DropType::Bun => "droppables/bun.png"@,
        DropType::Cassette => "droppables/cassette.png"@,
        DropType::Cauliflower => "droppables/cauliflower.png"@,
        DropType::Cd => "droppables/cd.png"@,
        DropType::Cheese => "droppables/cheese.png"@,
        DropType::Cherry => "droppables/cherry.png"@,
        DropType::Crown => "droppables/crown.png"@,
        DropType::Diamond => "droppables/diamond.png"@,
        DropType::Donut => "droppables/donut.png"@,
        DropType::Egg => "droppables/egg.png"@,
        DropType::FriedEgg => "droppables/fried_egg.png"@,
        DropType::Garlic => "droppables/garlic.png"@,
        DropType::Grapes => "droppables/grapes.png"@,
        DropType::Headphones => "droppables/headphones.png"@,
        DropType::Lemon => "droppables/lemon.png"@,
        DropType::Lettuce => "droppables/lettuce.png"@,
        DropType::Money => "droppables/money.png"@,
        DropType::Mouth => "droppables/mouth.png"@,
        DropType::Mushroom => "droppables/mushroom.png"@,
        DropType::Onion => "droppables/onion.png"@,
        DropType::Orange => "droppables/orange.png"@,
        DropType::Pepper => "droppables/onion.png"@,
        DropType::Pill => "droppables/pill.png"@,
        DropType::Pumpkin => "droppables/pumpkin.png"@,
        DropType::Ramen => "droppables/ramen.png"@,
        DropType::Salt => "droppables/salt.png"@,
        DropType::Seven => "droppables/seven.png"@,
        DropType::Shot => "droppables/shot.png"@,
        DropType::Weed => "droppables/weed.png"@,
    }
}

/// The category of each item kind.
pub open spec fn spec_category(d: DropType) -> DropCategory {
    match d {
        DropType::Apple => DropCategory::Fruit,
        DropType::Bagel => DropCategory::Bakery,
        DropType::Ball => DropCategory::Special,
        DropType::Bell => DropCategory::Fruit,
        DropType::Bun => DropCategory::Bakery,
        DropType::Cassette => DropCategory::Tech,
        DropType::Cauliflower => DropCategory::Veg,
        DropType::Cd => DropCategory::Tech,
        DropType::Cheese => DropCategory::Produce,
        DropType::Cherry => DropCategory::Fruit,
        DropType::Crown => DropCategory::Special,
        DropType::Diamond => DropCategory::Special,
        DropType::Donut => DropCategory::Bakery,
        DropType::Egg => DropCategory::Produce,
        DropType::FriedEgg => DropCategory::Produce,
        DropType::Garlic => DropCategory::Veg,
        DropType::Grapes => DropCategory::Fruit,
        DropType::Headphones => DropCategory::Tech,
        DropType::Lemon => DropCategory::Fruit,
        DropType::Lettuce => DropCategory::Veg,
        DropType::Money => DropCategory::Special,
        DropType::Mouth => DropCategory::Special,
        DropType::Mushroom => DropCategory::Drug,
        DropType::Onion => DropCategory::Veg,
        DropType::Orange => DropCategory::Fruit,
        DropType::Pepper => DropCategory::Special,
        DropType::Pill => DropCategory::Drug,
        DropType::Pumpkin => DropCategory::Veg,
        DropType::Ramen => DropCategory::Special,
        DropType::Salt => DropCategory::Special,
        DropType::Seven => DropCategory::Special,
        DropType::Shot => DropCategory::Drug,
        DropType::Weed => DropCategory::Drug,
    }
}

/// Whether each item kind can be eaten.
pub open spec fn spec_edible(d: DropType) -> bool {
    match d {
        DropType::Apple => true,
        DropType::Bagel => true,
        DropType::Ball => false,
        DropType::Bell => false,
        DropType::Bun => true,
        DropType::Cassette => false,
        DropType::Cauliflower => true,
        DropType::Cd => false,
        DropType::Cheese => true,
        DropType::Cherry => true,
        DropType::Crown => false,
        DropType::Diamond => false,
        DropType::Donut => true,
        DropType::Egg => true,
        DropType::FriedEgg => true,
        DropType::Garlic => true,
        DropType::Grapes => true,
        DropType::Headphones => false,
        DropType::Lemon => true,
        DropType::Lettuce => true,
        DropType::Money => false,
        DropType::Mouth => false,
        DropType::Mushroom => true,
        DropType::Onion => true,
        DropType::Orange => true,
        DropType::Pepper => true,
        DropType::Pill => true,
        DropType::Pumpkin => true,
        DropType::Ramen => true,
        DropType::Salt => true,
        DropType::Seven => false,
        DropType::Shot => true,
        DropType::Weed => true,
    }
}

impl DropType {
    /// The sprite path of this item kind.
    pub fn get_path(&self) -> (r: &'static str)
        ensures
            r@ == spec_path(*self),
    {
        match self {
            DropType::Apple => "droppables/apple.png",
            DropType::Bagel => "droppables/bagel.png",
            DropType::Ball => "droppables/ball.png",
            DropType::Bell => "droppables/bell.png",
            DropType::Bun => "droppables/bun.png",
            DropType::Cassette => "droppables/cassette.png",
            DropType::Cauliflower => "droppables/cauliflower.png",
            DropType::Cd => "droppables/cd.png",
            DropType::Cheese => "droppables/cheese.png",
            DropType::Cherry => "droppables/cherry.png",
            DropType::Crown => "droppables/crown.png",
            DropType::Diamond => "droppables/diamond.png",
            DropType::Donut => "droppables/donut.png",
            DropType::Egg => "droppables/egg.png",
            DropType::FriedEgg => "droppables/fried_egg.png",
            DropType::Garlic => "droppables/garlic.png",
            DropType::Grapes => "droppables/grapes.png",
            DropType::Headphones => "droppables/headphones.png",
            DropType::Lemon => "droppables/lemon.png",
            DropType::Lettuce => "droppables/lettuce.png",
            DropType::Money => "droppables/money.png",
            DropType::Mouth => "droppables/mouth.png",
            DropType::Mushroom => "droppables/mushroom.png",
            DropType::Onion => "droppables/onion.png",
            DropType::Orange => "droppables/orange.png",
            DropType::Pepper => "droppables/onion.png",
            DropType::Pill => "droppables/pill.png",
            DropType::Pumpkin => "droppables/pumpkin.png",
            DropType::Ramen => "droppables/ramen.png",
            DropType::Salt => "droppables/salt.png",
            DropType::Seven => "droppables/seven.png",
            DropType::Shot => "droppables/shot.png",
            DropType::Weed => "droppables/weed.png",
        }
    }

    /// The category of this item kind.
    pub fn get_type(&self) -> (r: DropCategory)
        ensures
            r == spec_category(*self),
    {
        match self {
            DropType::Apple => DropCategory::Fruit,
            DropType::Bagel => DropCategory::Bakery,
            DropType::Ball => DropCategory::Special,
            DropType::Bell => DropCategory::Fruit,
            DropType::Bun => DropCategory::Bakery,
            DropType::Cassette => DropCategory::Tech,
            DropType::Cauliflower => DropCategory::Veg,
            DropType::Cd => DropCategory::Tech,
            DropType::Cheese => DropCategory::Produce,
            DropType::Cherry => DropCategory::Fruit,
            DropType::Crown => DropCategory::Special,
            DropType::Diamond => DropCategory::Special,
            DropType::Donut => DropCategory::Bakery,
            DropType::Egg => DropCategory::Produce,
            DropType::FriedEgg => DropCategory::Produce,
            DropType::Garlic => DropCategory::Veg,
            DropType::Grapes => DropCategory::Fruit,
            DropType::Headphones => DropCategory::Tech,
            DropType::Lemon => DropCategory::Fruit,
            DropType::Lettuce => DropCategory::Veg,
            DropType::Money => DropCategory::Special,
            DropType::Mouth => DropCategory::Special,
            DropType::Mushroom => DropCategory::Drug,
            DropType::Onion => DropCategory::Veg,
            DropType::Orange => DropCategory::Fruit,
            DropType::Pepper => DropCategory::Special,
            DropType::Pill => DropCategory::Drug,
            DropType::Pumpkin => DropCategory::Veg,
            DropType::Ramen => DropCategory::Special,
            DropType::Salt => DropCategory::Special,
            DropType::Seven => DropCategory::Special,
            DropType::Shot => DropCategory::Drug,
            DropType::Weed => DropCategory::Drug,
        }
    }

    /// Whether this item kind can be eaten.
    pub fn is_edible(&self) -> (r: bool)
        ensures
            r == spec_edible(*self),
    {
        match self {
            DropType::Apple => true,
            DropType::Bagel => true,
            DropType::Ball => false,
            DropType::Bell => false,
            DropType::Bun => true,
            DropType::Cassette => false,
            DropType::Cauliflower => true,
            DropType::Cd => false,
            DropType::Cheese => true,
            DropType::Cherry => true,
            DropType::Crown => false,
            DropType::Diamond => false,
            DropType::Donut => true,
            DropType::Egg => true,
            DropType::FriedEgg => true,
            DropType::Garlic => true,
            DropType::Grapes => true,
            DropType::Headphones => false,
            DropType::Lemon => true,
            DropType::Lettuce => true,
            DropType::Money => false,
            DropType::Mouth => false,
            DropType::Mushroom => true,
            DropType::Onion => true,
            DropType::Orange => true,
            DropType::Pepper => true,
            DropType::Pill => true,
            DropType::Pumpkin => true,
            DropType::Ramen => true,
            DropType::Salt => true,
            DropType::Seven => false,
            DropType::Shot => true,
            DropType::Weed => true,
        }
    }
}

/// The item kind that a uniform draw `i` out of `0..20` stands for: the
/// ordinary groceries and gadgets, with `Ball` for anything out of the table.
pub open spec fn spec_standard_drop(i: int) -> DropType {
    if i == 0 {
        DropType::Apple
    }     else if i == 1 {
        DropType::Bagel
    }     else if i == 2 {
        DropType::Bun
    }     else if i == 3 {
        DropType::Cassette
    }     else if i == 4 {
        DropType::Cauliflower
    }     else if i == 5 {
        DropType::Cd
    }     else if i == 6 {
        DropType::Cheese
    }     else if i == 7 {
        DropType::Donut
    }     else if i == 8 {
        DropType::Egg
    }     else if i == 9 {
        DropType::FriedEgg
    }     else if i == 10 {
        DropType::Garlic
    }     else if i == 11 {
        DropType::Grapes
    }     else if i == 12 {
        DropType::Headphones
    }     else if i == 13 {
        DropType::Lettuce
    }     else if i == 14 {
        DropType::Onion
    }     else if i == 15 {
        DropType::Orange
    }     else if i == 16 {
        DropType::Pepper
    }     else if i == 17 {
        DropType::Pumpkin
    }     else if i == 18 {
        DropType::Ramen
    }     else if i == 19 {
        DropType::Salt
    } else {
        DropType::Ball
    }
}

/// The item kind that a uniform draw `i` out of `0..20` stands for: the
/// ordinary groceries and gadgets, with `Ball` for anything out of the table.
pub fn standard_drop(i: u8) -> (r: DropType)
    ensures
        r == spec_standard_drop(i as int),
{
    match i {
        0 => DropType::Apple,
        1 => DropType::Bagel,
        2 => DropType::Bun,
        3 => DropType::Cassette,
        4 => DropType::Cauliflower,
        5 => DropType::Cd,
        6 => DropType::Cheese,
        7 => DropType::Donut,
        8 => DropType::Egg,
        9 => DropType::FriedEgg,
        10 => DropType::Garlic,
        11 => DropType::Grapes,
        12 => DropType::Headphones,
        13 => DropType::Lettuce,
        14 => DropType::Onion,
        15 => DropType::Orange,
        16 => DropType::Pepper,
        17 => DropType::Pumpkin,
        18 => DropType::Ramen,
        19 => DropType::Salt,
        _ => DropType::Ball,
    }
}

/// A random ordinary item, as used for work-shift balls and basket labels.
pub fn random_drop_type() -> (r: DropType)
    ensures
        exists|i: int| 0 <= i < 20 && r == spec_standard_drop(i),
        spec_category(r) != DropCategory::Drug,
{
    let i = random_index(20);
    standard_drop(i)
}

/// The drug that a uniform draw `i` out of `0..4` stands for.
pub open spec fn spec_drug_drop(i: int) -> DropType {
    if i == 0 {
        DropType::Mushroom
    }     else if i == 1 {
        DropType::Pill
    }     else if i == 2 {
        DropType::Shot
    }     else if i == 3 {
        DropType::Weed
    } else {
        DropType::Ball
    }
}

/// The drug that a uniform draw `i` out of `0..4` stands for.
pub fn drug_drop(i: u8) -> (r: DropType)
    ensures
        r == spec_drug_drop(i as int),
{
    match i {
        0 => DropType::Mushroom,
        1 => DropType::Pill,
        2 => DropType::Shot,
        3 => DropType::Weed,
        _ => DropType::Ball,
    }
}

/// A random drug.
pub fn random_drug() -> (r: DropType)
    ensures
        exists|i: int| 0 <= i < 4 && r == spec_drug_drop(i),
        spec_category(r) == DropCategory::Drug,
{
    let i = random_index(4);
    drug_drop(i)
}

/// The item that a uniform draw `i` out of `0..30` stands for: anything but
/// `Mouth`, `Ball` and `Seven`.
pub open spec fn spec_droppable_drop(i: int) -> DropType {
    if i == 0 {
        DropType::Apple
    }     else if i == 1 {
        DropType::Bagel
    }     else if i == 2 {
        DropType::Salt
    }     else if i == 3 {
        DropType::Bell
    }     else if i == 4 {
        DropType::Bun
    }     else if i == 5 {
        DropType::Cassette
    }     else if i == 6 {
        DropType::Cauliflower
    }     else if i == 7 {
        DropType::Cd
    }     else if i == 8 {
        DropType::Cheese
    }     else if i == 9 {
        DropType::Cherry
    }     else if i == 10 {
        DropType::Crown
    }     else if i == 11 {
        DropType::Diamond
    }     else if i == 12 {
        DropType::Donut
    }     else if i == 13 {
        DropType::Egg
    }     else if i == 14 {
        DropType::FriedEgg
    }     else if i == 15 {
        DropType::Garlic
    }     else if i == 16 {
        DropType::Grapes
    }     else if i == 17 {
        DropType::Headphones
    }     else if i == 18 {
        DropType::Lemon
    }     else if i == 19 {
        DropType::Lettuce
    }     else if i == 20 {
        DropType::Shot
    }     else if i == 21 {
        DropType::Mushroom
    }     else if i == 22 {
        DropType::Onion
    }     else if i == 23 {
        DropType::Orange
    }     else if i == 24 {
        DropType::Pepper
    }     else if i == 25 {
        DropType::Pill
    }     else if i == 26 {
        DropType::Pumpkin
    }     else if i == 27 {
        DropType::Ramen
    }     else if i == 29 {
        DropType::Weed
    } else {
        DropType::Apple
    }
}

/// The item that a uniform draw `i` out of `0..30` stands for: anything but
/// `Mouth`, `Ball` and `Seven`.
pub fn droppable_drop(i: u8) -> (r: DropType)
    ensures
        r == spec_droppable_drop(i as int),
{
    match i {
        0 => DropType::Apple,
        1 => DropType::Bagel,
        2 => DropType::Salt,
        3 => DropType::Bell,
        4 => DropType::Bun,
        5 => DropType::Cassette,
        6 => DropType::Cauliflower,
        7 => DropType::Cd,
        8 => DropType::Cheese,
        9 => DropType::Cherry,
        10 => DropType::Crown,
        11 => DropType::Diamond,
        12 => DropType::Donut,
        13 => DropType::Egg,
        14 => DropType::FriedEgg,
        15 => DropType::Garlic,
        16 => DropType::Grapes,
        17 => DropType::Headphones,
        18 => DropType::Lemon,
        19 => DropType::Lettuce,
        20 => DropType::Shot,
        21 => DropType::Mushroom,
        22 => DropType::Onion,
        23 => DropType::Orange,
        24 => DropType::Pepper,
        25 => DropType::Pill,
        26 => DropType::Pumpkin,
        27 => DropType::Ramen,
        29 => DropType::Weed,
        _ => DropType::Apple,
    }
}

/// A random item other than `Mouth`, `Ball` and `Seven`.
pub fn random_droppable_except_mouth_ball_and_seven() -> (r: DropType)
    ensures
        exists|i: int| 0 <= i < 30 && r == spec_droppable_drop(i),
        r != DropType::Mouth && r != DropType::Ball && r != DropType::Seven,
{
    let i = random_index(30);
    droppable_drop(i)
}

/// The edible non-drug item that a uniform draw `i` out of `0..18` stands for.
pub open spec fn spec_non_drug_edible_drop(i: int) -> DropType {
    if i == 0 {
        DropType::Apple
    }     else if i == 1 {
        DropType::Bagel
    }     else if i == 2 {
        DropType::Bun
    }     else if i == 3 {
        DropType::Cauliflower
    }     else if i == 4 {
        DropType::Cheese
    }     else if i == 5 {
        DropType::Cherry
    }     else if i == 6 {
        DropType::Donut
    }     else if i == 7 {
        DropType::Egg
    }     else if i == 8 {
        DropType::FriedEgg
    }     else if i == 9 {
        DropType::Garlic
    }     else if i == 10 {
        DropType::Grapes
    }     else if i == 11 {
        DropType::Lemon
    }     else if i == 12 {
        DropType::Lettuce
    }     else if i == 13 {
        DropType::Onion
    }     else if i == 14 {
        DropType::Orange
    }     else if i == 15 {
        DropType::Pepper
    }     else if i == 16 {
        DropType::Pumpkin
    }     else if i == 17 {
        DropType::Ramen
    } else {
        DropType::Apple
    }
}

/// The edible non-drug item that a uniform draw `i` out of `0..18` stands for.
pub fn non_drug_edible_drop(i: u8) -> (r: DropType)
    ensures
        r == spec_non_drug_edible_drop(i as int),
{
    match i {
        0 => DropType::Apple,
        1 => DropType::Bagel,
        2 => DropType::Bun,
        3 => DropType::Cauliflower,
        4 => DropType::Cheese,
        5 => DropType::Cherry,
        6 => DropType::Donut,
        7 => DropType::Egg,
        8 => DropType::FriedEgg,
        9 => DropType::Garlic,
        10 => DropType::Grapes,
        11 => DropType::Lemon,
        12 => DropType::Lettuce,
        13 => DropType::Onion,
        14 => DropType::Orange,
        15 => DropType::Pepper,
        16 => DropType::Pumpkin,
        17 => DropType::Ramen,
        _ => DropType::Apple,
    }
}

/// A random edible item that is not a drug.
pub fn random_non_drug_edible() -> (r: DropType)
    ensures
        exists|i: int| 0 <= i < 18 && r == spec_non_drug_edible_drop(i),
        spec_edible(r),
        spec_category(r) != DropCategory::Drug,
{
    let i = random_index(18);
    non_drug_edible_drop(i)
}

/// The inedible item that a uniform draw `i` out of `0..7` stands for.
pub open spec fn spec_inedible_drop(i: int) -> DropType {
    if i == 0 {
        DropType::Bell
    }     else if i == 1 {
        DropType::Cassette
    }     else if i == 2 {
        DropType::Cd
    }     else if i == 3 {
        DropType::Crown
    }     else if i == 4 {
        DropType::Diamond
    }     else if i == 5 {
        DropType::Headphones
    }     else if i == 6 {
        DropType::Money
    } else {
        DropType::Cd
    }
}

/// The inedible item that a uniform draw `i` out of `0..7` stands for.
pub fn inedible_drop(i: u8) -> (r: DropType)
    ensures
        r == spec_inedible_drop(i as int),
{
    match i {
        0 => DropType::Bell,
        1 => DropType::Cassette,
        2 => DropType::Cd,
        3 => DropType::Crown,
        4 => DropType::Diamond,
        5 => DropType::Headphones,
        6 => DropType::Money,
        _ => DropType::Cd,
    }
}

/// A random inedible item, drawn from the non-special ones and a few treasures.
pub fn random_inedible_except_special() -> (r: DropType)
    ensures
        exists|i: int| 0 <= i < 7 && r == spec_inedible_drop(i),
        !spec_edible(r),
{
    let i = random_index(7);
    inedible_drop(i)
}

} // verus!
