use vstd::prelude::*;

verus! {

/// How many example prompts the fixed table holds.
pub const PROMPT_COUNT: usize = 26;

/// The fixed table of example prompts, one entry per index below
/// `PROMPT_COUNT`.
pub open spec fn spec_example_prompt(i: int) -> Seq<char> {
    if i == 0 {
        "A serene mountain landscape at sunrise with low mist and golden light"@
    } else if i == 1 {
        "A cozy cabin in a snowy forest at night, warm light glowing from the windows"@
    } else if i == 2 {
        "A futuristic city skyline with neon lights reflecting on rain-soaked streets"@
    } else if i == 3 {
        "A starry night sky over a calm lake, with the Milky Way clearly visible"@
    } else if i == 4 {
        "An ancient library filled with floating books and glowing runes, magical atmosphere"@
    } else if i == 5 {
        "A Pixar-style robot watering flowers on a tiny floating island in the sky"@
    } else if i == 6 {
        "A peaceful Japanese garden with a red bridge, koi pond, and cherry blossoms"@
    } else if i == 7 {
        "A dramatic thunderstorm over a sunflower field, cinematic lighting and contrast"@
    } else if i == 8 {
        "A whimsical treehouse village built in giant redwood trees, lanterns glowing at dusk"@
    } else if i == 9 {
        "An astronaut standing on an alien world, looking at a huge ringed planet in the sky"@
    } else if i == 10 {
        "A vibrant coral reef teeming with colorful fish and marine life, sun rays penetrating the water"@
    } else if i == 11 {
        "A fantasy castle perched on a cliff overlooking a vast ocean, sunset lighting"@
    } else if i == 12 {
        "A close-up portrait of a majestic lion with a flowing mane, golden hour lighting"@
    } else if i == 13 {
        "A bustling medieval marketplace with vendors, townsfolk, and lively activity"@
    } else if i == 14 {
        "A surreal desert landscape with giant floating crystals and a purple sky"@
    } else if i == 15 {
        "A cute puppy playing in a field of wildflowers under a bright blue sky"@
    } else if i == 16 {
        "A steampunk airship flying over a Victorian-era city, detailed and intricate design"@
    } else if i == 17 {
        "A magical forest clearing with glowing mushrooms and fairies dancing"@
    } else if i == 18 {
        "Majestic sunrise over a crystal-clear mountain lake, vibrant sky reflections, ultra-realistic colors, serene and inspiring."@
    } else if i == 19 {
        "Desert dunes at twilight with long shadows, glowing horizon, dramatic clouds, cinematic mood."@
    } else if i == 20 {
        "Van Gogh–inspired starry night over a quiet European village, swirling vibrant skies, painterly textures."@
    } else if i == 21 {
        "Studio Ghibli–style cozy cottage in a meadow, magical lighting, whimsical atmosphere."@
    } else if i == 22 {
        "Futuristic city skyline with floating skybridges, neon reflections in rain-soaked streets, cyberpunk aesthetic."@
    } else if i == 23 {
        "A lone astronaut standing on an alien cliffside overlooking bioluminescent forests, surreal colors."@
    } else if i == 24 {
        "A single bright red cardinal perched on a snowy branch, soft bokeh background, peaceful winter mood."@
    } else {
        "A candlelit wooden desk with an open journal, handwritten notes, warm cozy glow, nostalgic atmosphere."@
    }
}

/// The example prompt at index `i` of the fixed table.
pub fn example_prompt(i: usize) -> (r: &'static str)
    requires
        i < PROMPT_COUNT,
    ensures
        r@ == spec_example_prompt(i as int),
{
    if i == 0 {
        "A serene mountain landscape at sunrise with low mist and golden light"
    } else if i == 1 {
        "A cozy cabin in a snowy forest at night, warm light glowing from the windows"
    } else if i == 2 {
        "A futuristic city skyline with neon lights reflecting on rain-soaked streets"
    } else if i == 3 {
        "A starry night sky over a calm lake, with the Milky Way clearly visible"
    } else if i == 4 {
        "An ancient library filled with floating books and glowing runes, magical atmosphere"
    } else if i == 5 {
        "A Pixar-style robot watering flowers on a tiny floating island in the sky"
    } else if i == 6 {
        "A peaceful Japanese garden with a red bridge, koi pond, and cherry blossoms"
    } else if i == 7 {
        "A dramatic thunderstorm over a sunflower field, cinematic lighting and contrast"
    } else if i == 8 {
        "A whimsical treehouse village built in giant redwood trees, lanterns glowing at dusk"
    } else if i == 9 {
        "An astronaut standing on an alien world, looking at a huge ringed planet in the sky"
    } else if i == 10 {
        "A vibrant coral reef teeming with colorful fish and marine life, sun rays penetrating the water"
    } else if i == 11 {
        "A fantasy castle perched on a cliff overlooking a vast ocean, sunset lighting"
    } else if i == 12 {
        "A close-up portrait of a majestic lion with a flowing mane, golden hour lighting"
    } else if i == 13 {
        "A bustling medieval marketplace with vendors, townsfolk, and lively activity"
    } else if i == 14 {
        "A surreal desert landscape with giant floating crystals and a purple sky"
    } else if i == 15 {
        "A cute puppy playing in a field of wildflowers under a bright blue sky"
    } else if i == 16 {
        "A steampunk airship flying over a Victorian-era city, detailed and intricate design"
    } else if i == 17 {
        "A magical forest clearing with glowing mushrooms and fairies dancing"
    } else if i == 18 {
        "Majestic sunrise over a crystal-clear mountain lake, vibrant sky reflections, ultra-realistic colors, serene and inspiring."
    } else if i == 19 {
        "Desert dunes at twilight with long shadows, glowing horizon, dramatic clouds, cinematic mood."
    } else if i == 20 {
        "Van Gogh–inspired starry night over a quiet European village, swirling vibrant skies, painterly textures."
    } else if i == 21 {
        "Studio Ghibli–style cozy cottage in a meadow, magical lighting, whimsical atmosphere."
    } else if i == 22 {
        "Futuristic city skyline with floating skybridges, neon reflections in rain-soaked streets, cyberpunk aesthetic."
    } else if i == 23 {
        "A lone astronaut standing on an alien cliffside overlooking bioluminescent forests, surreal colors."
    } else if i == 24 {
        "A single bright red cardinal perched on a snowy branch, soft bokeh background, peaceful winter mood."
    } else {
        "A candlelit wooden desk with an open journal, handwritten notes, warm cozy glow, nostalgic atmosphere."
    }
}

} // verus!
