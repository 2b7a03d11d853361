//! The record catalog: descriptive records of the fish that tags identify, and
//! the lookup of a record by identifier.
use vstd::prelude::*;

verus! {

/// Name of the event that carries a scanned record to the presentation layer.
pub const FISH_DATA_EVENT: &'static str = "fishData";
/// Number of records in the catalog; their identifiers are 1 to this number.
pub const FISH_COUNT: u32 = 5;

/// A descriptive record of one fish.
#[derive(Clone, Copy, Debug)]
pub struct FishInfo {
    pub id: u32,
    pub name: &'static str,
    pub average_size: &'static str,
    pub average_weight: &'static str,
    pub average_lifespan: &'static str,
    pub habitat: &'static str,
    pub diet: &'static str,
    pub endangered_status: &'static str,
    pub blurb: &'static str,
    pub image_path: &'static str,
    pub fun_fact: &'static str,
}

/// The first record of `catalog` with identifier `id`.
pub open spec fn catalog_find(catalog: Seq<FishInfo>, id: u32) -> Option<FishInfo>
    decreases catalog.len(),
{
    if catalog.len() == 0 {
        None
    } else if catalog[0].id == id {
        Some(catalog[0])
    } else {
        catalog_find(catalog.drop_first(), id)
    }
}

/// The catalog's records, with identifiers 1 to `FISH_COUNT` in order.
pub open spec fn fish_data() -> Seq<FishInfo> {
    seq![
        FishInfo {
            id: 1,
            name: "Salmon",
            average_size: "2 to 5 feet",
            average_weight: "5 to 30 pounds",
            average_lifespan: "3 to 8 years",
            habitat: "North Atlantic and Pacific Oceans",
            diet: "Carnivorous, feeding on insects, zooplankton, crustaceans, and smaller fish",
            endangered_status: "Least Concern",
            blurb: "Salmon are anadromous fish, meaning they live in both fresh and saltwater at different stages of their lives. Born in freshwater rivers and streams, they migrate to the ocean to mature before returning to their birthplace to spawn. Known for their rich flavor and high nutritional value, salmon are popular in both commercial and recreational fishing industries. They play a vital role in their ecosystems, supporting other species such as bears, eagles, and humans. Some salmon species can travel hundreds of miles and overcome significant obstacles to reach their spawning grounds, demonstrating remarkable endurance and navigational skills.",
            image_path: "/salmon.jpg",
            fun_fact: "Salmon are capable of leaping up to 12 feet in the air to overcome obstacles while migrating upstream to spawn.",
        },
        FishInfo {
            id: 2,
            name: "Greenland Halibut",
            average_size: "2 to 3 feet",
            average_weight: "5 to 40 pounds",
            average_lifespan: "25 to 30 years",
            habitat: "Arctic and North Atlantic Oceans",
            diet: "Carnivorous, feeding on fish, squid, and crustaceans",
            endangered_status: "Endangered",
            blurb: "The Greenland halibut, also known as the Greenland turbot, is a deep-sea flatfish found in the frigid waters of the Arctic and North Atlantic. Unlike the Pacific halibut, this species lives at great depths, often between 600 and 2,000 feet. Its diet consists primarily of fish, squid, and crustaceans. Greenland halibut have a distinctive appearance, with their top side being dark and their underside pale, blending well with the ocean floor. They are a significant commercial species in Arctic fisheries and play a vital role in the ecosystem as a predator.",
            image_path: "/greenland_halibut.jpg",
            fun_fact: "Greenland halibut are known for their slow growth rate and long lifespan, with some individuals living up to 30 years.",
        },
        FishInfo {
            id: 3,
            name: "Arctic Cod",
            average_size: "1 to 2 feet",
            average_weight: "1 to 3 pounds",
            average_lifespan: "8 to 12 years",
            habitat: "Arctic Ocean",
            diet: "Carnivorous, feeding on zooplankton, small fish, and invertebrates",
            endangered_status: "Not Evaluated",
            blurb: "The Arctic cod, also known as polar cod, is a small, silvery fish found in the cold, deep waters of the Arctic Ocean. They play a crucial role in the Arctic food web, serving as a primary food source for larger predators such as seals, whales, and seabirds. Arctic cod are known for their ability to survive in extreme cold temperatures and low light conditions. They have antifreeze proteins in their blood that prevent ice crystals from forming and damaging their cells. Arctic cod are an essential species in the Arctic ecosystem, supporting a diverse range of predators and contributing to the overall health of the marine environment.",
            image_path: "/polar_cod.jpg",
            fun_fact: "Arctic cod are capable of surviving in water temperatures as low as -2 degrees Celsius, thanks to their antifreeze proteins.",
        },
        FishInfo {
            id: 4,
            name: "Antarctic Toothfish",
            average_size: "4 to 6 feet",
            average_weight: "50 to 200 pounds",
            average_lifespan: "10 to 15 years",
            habitat: "Arctic Ocean",
            diet: "Carnivorous, feeding on fish, squid, and crustaceans",
            endangered_status: "Not Evaluated",
            blurb: "The Antarctic toothfish, also known as the Chilean sea bass, is a large predatory fish found in the cold waters of the Southern Ocean around Antarctica. They are known for their long lifespan, slow growth rate, and high oil content, making them a valuable commercial species. Antarctic toothfish have a unique adaptation called cryopelagic drift, where they release buoyant eggs that drift with the currents to hatch in more favorable conditions. This strategy allows them to reproduce in the harsh Antarctic environment. Antarctic toothfish play a vital role in the Antarctic ecosystem as top predators, controlling the populations of smaller fish and squid.",
            image_path: "/antarctic_toothfish.jpg",
            fun_fact: "Antarctic toothfish are known for their deep-sea habitat, living at depths of up to 6,600 feet in the Southern Ocean.",
        },
        FishInfo {
            id: 5,
            name: "Spiny Icefish",
            average_size: "6 to 10 inches",
            average_weight: "Less than 1 pound",
            average_lifespan: "2 to 3 years",
            habitat: "Arctic Ocean",
            diet: "Carnivorous, feeding on krill and small fish",
            endangered_status: "Not Evaluated",
            blurb: "The Antarctic spiny icefish is a small, translucent fish found in the cold waters of the Southern Ocean around Antarctica. They are known for their unique adaptation to the extreme cold temperatures of the Antarctic environment. Antarctic spiny icefish lack red blood cells and hemoglobin, which are typically used to transport oxygen in most vertebrates. Instead, they have a specialized protein that binds to oxygen and allows them to survive in oxygen-poor waters. Antarctic spiny icefish play a crucial role in the Antarctic food web, serving as prey for larger predators such as seals, whales, and seabirds.",
            image_path: "/spiny_icefish.jpg",
            fun_fact: "Antarctic spiny icefish lack red blood cells and hemoglobin, relying on a specialized protein to transport oxygen in their blood.",
        },
    ]
}

/// The records, with identifiers 1 to `FISH_COUNT` in order.
pub fn fish_catalog() -> (r: Vec<FishInfo>)
    ensures
        r@ == fish_data(),
        r@.len() == FISH_COUNT,
        forall|i: int| 0 <= i < r@.len() ==> #[trigger] r@[i].id == i + 1,
{
    let mut records: Vec<FishInfo> = Vec::new();
    records.push(
        FishInfo {
            id: 1,
            name: "Salmon",
            average_size: "2 to 5 feet",
            average_weight: "5 to 30 pounds",
            average_lifespan: "3 to 8 years",
            habitat: "North Atlantic and Pacific Oceans",
            diet: "Carnivorous, feeding on insects, zooplankton, crustaceans, and smaller fish",
            endangered_status: "Least Concern",
            blurb: "Salmon are anadromous fish, meaning they live in both fresh and saltwater at different stages of their lives. Born in freshwater rivers and streams, they migrate to the ocean to mature before returning to their birthplace to spawn. Known for their rich flavor and high nutritional value, salmon are popular in both commercial and recreational fishing industries. They play a vital role in their ecosystems, supporting other species such as bears, eagles, and humans. Some salmon species can travel hundreds of miles and overcome significant obstacles to reach their spawning grounds, demonstrating remarkable endurance and navigational skills.",
            image_path: "/salmon.jpg",
            fun_fact: "Salmon are capable of leaping up to 12 feet in the air to overcome obstacles while migrating upstream to spawn.",
        },
    );
    records.push(
        FishInfo {
            id: 2,
            name: "Greenland Halibut",
            average_size: "2 to 3 feet",
            average_weight: "5 to 40 pounds",
            average_lifespan: "25 to 30 years",
            habitat: "Arctic and North Atlantic Oceans",
            diet: "Carnivorous, feeding on fish, squid, and crustaceans",
            endangered_status: "Endangered",
            blurb: "The Greenland halibut, also known as the Greenland turbot, is a deep-sea flatfish found in the frigid waters of the Arctic and North Atlantic. Unlike the Pacific halibut, this species lives at great depths, often between 600 and 2,000 feet. Its diet consists primarily of fish, squid, and crustaceans. Greenland halibut have a distinctive appearance, with their top side being dark and their underside pale, blending well with the ocean floor. They are a significant commercial species in Arctic fisheries and play a vital role in the ecosystem as a predator.",
            image_path: "/greenland_halibut.jpg",
            fun_fact: "Greenland halibut are known for their slow growth rate and long lifespan, with some individuals living up to 30 years.",
        },
    );
    records.push(
        FishInfo {
            id: 3,
            name: "Arctic Cod",
            average_size: "1 to 2 feet",
            average_weight: "1 to 3 pounds",
            average_lifespan: "8 to 12 years",
            habitat: "Arctic Ocean",
            diet: "Carnivorous, feeding on zooplankton, small fish, and invertebrates",
            endangered_status: "Not Evaluated",
            blurb: "The Arctic cod, also known as polar cod, is a small, silvery fish found in the cold, deep waters of the Arctic Ocean. They play a crucial role in the Arctic food web, serving as a primary food source for larger predators such as seals, whales, and seabirds. Arctic cod are known for their ability to survive in extreme cold temperatures and low light conditions. They have antifreeze proteins in their blood that prevent ice crystals from forming and damaging their cells. Arctic cod are an essential species in the Arctic ecosystem, supporting a diverse range of predators and contributing to the overall health of the marine environment.",
            image_path: "/polar_cod.jpg",
            fun_fact: "Arctic cod are capable of surviving in water temperatures as low as -2 degrees Celsius, thanks to their antifreeze proteins.",
        },
    );
    records.push(
        FishInfo {
            id: 4,
            name: "Antarctic Toothfish",
            average_size: "4 to 6 feet",
            average_weight: "50 to 200 pounds",
            average_lifespan: "10 to 15 years",
            habitat: "Arctic Ocean",
            diet: "Carnivorous, feeding on fish, squid, and crustaceans",
            endangered_status: "Not Evaluated",
            blurb: "The Antarctic toothfish, also known as the Chilean sea bass, is a large predatory fish found in the cold waters of the Southern Ocean around Antarctica. They are known for their long lifespan, slow growth rate, and high oil content, making them a valuable commercial species. Antarctic toothfish have a unique adaptation called cryopelagic drift, where they release buoyant eggs that drift with the currents to hatch in more favorable conditions. This strategy allows them to reproduce in the harsh Antarctic environment. Antarctic toothfish play a vital role in the Antarctic ecosystem as top predators, controlling the populations of smaller fish and squid.",
            image_path: "/antarctic_toothfish.jpg",
            fun_fact: "Antarctic toothfish are known for their deep-sea habitat, living at depths of up to 6,600 feet in the Southern Ocean.",
        },
    );
    records.push(
        FishInfo {
            id: 5,
            name: "Spiny Icefish",
            average_size: "6 to 10 inches",
            average_weight: "Less than 1 pound",
            average_lifespan: "2 to 3 years",
            habitat: "Arctic Ocean",
            diet: "Carnivorous, feeding on krill and small fish",
            endangered_status: "Not Evaluated",
            blurb: "The Antarctic spiny icefish is a small, translucent fish found in the cold waters of the Southern Ocean around Antarctica. They are known for their unique adaptation to the extreme cold temperatures of the Antarctic environment. Antarctic spiny icefish lack red blood cells and hemoglobin, which are typically used to transport oxygen in most vertebrates. Instead, they have a specialized protein that binds to oxygen and allows them to survive in oxygen-poor waters. Antarctic spiny icefish play a crucial role in the Antarctic food web, serving as prey for larger predators such as seals, whales, and seabirds.",
            image_path: "/spiny_icefish.jpg",
            fun_fact: "Antarctic spiny icefish lack red blood cells and hemoglobin, relying on a specialized protein to transport oxygen in their blood.",
        },
    );
    assert(records@ =~= fish_data());
    records
}

/// Looks up the record with identifier `id` in `catalog`.
pub fn find_fish(catalog: &Vec<FishInfo>, id: u32) -> (r: Option<FishInfo>)
    ensures
        r == catalog_find(catalog@, id),
{
    let mut i: usize = 0;
    assert(catalog@.subrange(0, catalog@.len() as int) =~= catalog@);
    while i < catalog.len()
        invariant
            i <= catalog@.len(),
            catalog_find(catalog@, id) == catalog_find(
                catalog@.subrange(i as int, catalog@.len() as int),
                id,
            ),
        decreases catalog@.len() - i,
    {
        let ghost rest = catalog@.subrange(i as int, catalog@.len() as int);
        assert(rest[0] == catalog@[i as int]);
        assert(rest.drop_first() =~= catalog@.subrange(i + 1, catalog@.len() as int));
        if catalog[i].id == id {
            return Some(catalog[i]);
        }
        i = i + 1;
    }
    None
}


/// Relies on rand::random (rand 0.8): a value drawn from the thread-local
/// generator. Nothing is known of which value comes out.
pub assume_specification<T>[ rand::random::<T> ]() -> (r: T)
    where
        rand::distributions::Standard: rand::distributions::Distribution<T>,
;

proof fn lemma_find_in_order(c: Seq<FishInfo>, id: u32, base: int)
    requires
        forall|i: int| 0 <= i < c.len() ==> #[trigger] c[i].id == base + i,
    ensures
        base <= id < base + c.len() ==> catalog_find(c, id) == Some(c[id - base]),
        !(base <= id < base + c.len()) ==> catalog_find(c, id) is None,
    decreases c.len(),
{
    if c.len() > 0 {
        let rest = c.drop_first();
        assert forall|i: int| 0 <= i < rest.len() implies #[trigger] rest[i].id == (base + 1) + i by {
            assert(rest[i] == c[i + 1]);
        }
        lemma_find_in_order(rest, id, base + 1);
        if id != base && base <= id < base + c.len() {
            assert(rest[id - (base + 1)] == c[id - base]);
        }
    }
}

/// Looks up the catalog record with identifier `id`.
pub fn lookup_fish(id: u32) -> (r: Option<FishInfo>)
    ensures
        r == catalog_find(fish_data(), id),
        r is Some <==> 1 <= id <= FISH_COUNT,
        r is Some ==> r->Some_0.id == id,
{
    let catalog = fish_catalog();
    proof {
        lemma_find_in_order(catalog@, id, 1);
        if 1 <= id <= FISH_COUNT {
            assert(catalog@[id - 1].id == id);
        }
    }
    find_fish(&catalog, id)
}

/// The identifier that the random value `x` selects among `count` identifiers
/// numbered from 1.
pub fn fish_id_from_random(x: u32, count: u32) -> (r: u32)
    requires
        count > 0,
    ensures
        r == x % count + 1,
        1 <= r <= count,
{
    x % count + 1
}

/// The record that the random value `x` selects: record `x % FISH_COUNT` of the
/// catalog, whose identifier is one more.
pub fn fish_from_random(x: u32) -> (r: FishInfo)
    ensures
        r == fish_data()[(x % FISH_COUNT) as int],
        r.id == x % FISH_COUNT + 1,
        catalog_find(fish_data(), r.id) == Some(r),
{
    let id = fish_id_from_random(x, FISH_COUNT);
    match lookup_fish(id) {
        Some(f) => {
            proof {
                lemma_find_in_order(fish_data(), id, 1);
            }
            f
        },
        None => vstd::pervasive::unreached(),
    }
}

/// The record of a uniformly drawn catalog identifier: what a scan with no
/// hardware behind it delivers.
pub fn random_fish() -> (r: FishInfo)
    ensures
        1 <= r.id <= FISH_COUNT,
        catalog_find(fish_data(), r.id) == Some(r),
{
    let x: u32 = rand::random::<u32>();
    fish_from_random(x)
}
} // verus!
