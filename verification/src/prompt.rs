//! The fixed instruction template wrapped around every user prompt before it
//! is handed to the backend. The template is a constant of the worker, not
//! user-controllable: only the user prompt varies inside it.

use vstd::prelude::*;
use vstd::string::StringExecFns;

verus! {

/// Text placed before the user prompt.
pub fn prompt_prefix() -> (r: &'static str)
    ensures
        r@ == spec_prompt_prefix(),
{
    "Funny meme image with cartoon style, vibrant colors. The image should have medium-sized, white text with black outline in impact font. The meme should be about: "
}

pub open spec fn spec_prompt_prefix() -> Seq<char> {
    "Funny meme image with cartoon style, vibrant colors. The image should have medium-sized, white text with black outline in impact font. The meme should be about: "@
}

/// Text placed after the user prompt.
pub fn prompt_suffix() -> (r: &'static str)
    ensures
        r@ == spec_prompt_suffix(),
{
    ". The text should be short, funny, and placed at the top and bottom of the image in classic meme style. Make sure the text is not too large."
}

pub open spec fn spec_prompt_suffix() -> Seq<char> {
    ". The text should be short, funny, and placed at the top and bottom of the image in classic meme style. Make sure the text is not too large."@
}

/// The full backend prompt: the fixed template with the user prompt inside.
pub open spec fn spec_full_prompt(prompt: Seq<char>) -> Seq<char> {
    spec_prompt_prefix() + prompt + spec_prompt_suffix()
}

/// Wraps the user prompt in the fixed style/instruction template.
pub fn full_prompt(prompt: &str) -> (r: String)
    ensures
        r@ == spec_full_prompt(prompt@),
{
    let mut s = String::from_str(prompt_prefix());
    s.append(prompt);
    s.append(prompt_suffix());
    proof {
        assert(s@ =~= spec_full_prompt(prompt@));
    }
    s
}

} // verus!
