//! The fixed byte strings of the server: schemes, separators, the favicon
//! selectors, the route paths and the invite redirect target.
//!
//! Each literal exists twice: a spec constant that the contracts speak of,
//! and an executable builder proved to produce exactly those bytes.

use vstd::prelude::*;

verus! {

/// Bytes of `"http"`: the scheme of a plain connection.
pub open spec fn http_seq() -> Seq<u8> {
    seq![104u8, 116u8, 116u8, 112u8]
}

/// Builds the bytes of `"http"`.
pub fn http_bytes() -> (r: Vec<u8>)
    ensures
        r@ == http_seq(),
{
    let mut r: Vec<u8> = Vec::new();
    r.push(104u8);
    r.push(116u8);
    r.push(116u8);
    r.push(112u8);
    assert(r@ =~= http_seq());
    r
}

/// Bytes of `"https"`: the scheme of a TLS connection.
pub open spec fn https_seq() -> Seq<u8> {
    seq![104u8, 116u8, 116u8, 112u8, 115u8]
}

/// Builds the bytes of `"https"`.
pub fn https_bytes() -> (r: Vec<u8>)
    ensures
        r@ == https_seq(),
{
    let mut r: Vec<u8> = Vec::new();
    r.push(104u8);
    r.push(116u8);
    r.push(116u8);
    r.push(112u8);
    r.push(115u8);
    assert(r@ =~= https_seq());
    r
}

/// Bytes of `"://"`: the separator between scheme and host.
pub open spec fn scheme_sep_seq() -> Seq<u8> {
    seq![58u8, 47u8, 47u8]
}

/// Builds the bytes of `"://"`.
pub fn scheme_sep_bytes() -> (r: Vec<u8>)
    ensures
        r@ == scheme_sep_seq(),
{
    let mut r: Vec<u8> = Vec::new();
    r.push(58u8);
    r.push(47u8);
    r.push(47u8);
    assert(r@ =~= scheme_sep_seq());
    r
}

/// Bytes of `"www."`: the canonical subdomain prefix.
pub open spec fn www_prefix_seq() -> Seq<u8> {
    seq![119u8, 119u8, 119u8, 46u8]
}

/// Builds the bytes of `"www."`.
pub fn www_prefix_bytes() -> (r: Vec<u8>)
    ensures
        r@ == www_prefix_seq(),
{
    let mut r: Vec<u8> = Vec::new();
    r.push(119u8);
    r.push(119u8);
    r.push(119u8);
    r.push(46u8);
    assert(r@ =~= www_prefix_seq());
    r
}

/// Bytes of `"t="`: the favicon type query parameter.
pub open spec fn query_t_seq() -> Seq<u8> {
    seq![116u8, 61u8]
}

/// Builds the bytes of `"t="`.
pub fn query_t_bytes() -> (r: Vec<u8>)
    ensures
        r@ == query_t_seq(),
{
    let mut r: Vec<u8> = Vec::new();
    r.push(116u8);
    r.push(61u8);
    assert(r@ =~= query_t_seq());
    r
}

/// Bytes of `"&"`: the query parameter separator.
pub open spec fn amp_seq() -> Seq<u8> {
    seq![38u8]
}

/// Builds the bytes of `"&"`.
pub fn amp_bytes() -> (r: Vec<u8>)
    ensures
        r@ == amp_seq(),
{
    let mut r: Vec<u8> = Vec::new();
    r.push(38u8);
    assert(r@ =~= amp_seq());
    r
}

/// Bytes of `"?"`: the path/query separator.
pub open spec fn qmark_seq() -> Seq<u8> {
    seq![63u8]
}

/// Builds the bytes of `"?"`.
pub fn qmark_bytes() -> (r: Vec<u8>)
    ensures
        r@ == qmark_seq(),
{
    let mut r: Vec<u8> = Vec::new();
    r.push(63u8);
    assert(r@ =~= qmark_seq());
    r
}

/// Bytes of `"apple"`: the apple-touch icon selector.
pub open spec fn apple_seq() -> Seq<u8> {
    seq![97u8, 112u8, 112u8, 108u8, 101u8]
}

/// Builds the bytes of `"apple"`.
pub fn apple_bytes() -> (r: Vec<u8>)
    ensures
        r@ == apple_seq(),
{
    let mut r: Vec<u8> = Vec::new();
    r.push(97u8);
    r.push(112u8);
    r.push(112u8);
    r.push(108u8);
    r.push(101u8);
    assert(r@ =~= apple_seq());
    r
}

/// Bytes of `"favicon16"`: the 16x16 icon selector.
pub open spec fn favicon16_seq() -> Seq<u8> {
    seq![102u8, 97u8, 118u8, 105u8, 99u8, 111u8, 110u8, 49u8, 54u8]
}

/// Builds the bytes of `"favicon16"`.
pub fn favicon16_bytes() -> (r: Vec<u8>)
    ensures
        r@ == favicon16_seq(),
{
    let mut r: Vec<u8> = Vec::new();
    r.push(102u8);
    r.push(97u8);
    r.push(118u8);
    r.push(105u8);
    r.push(99u8);
    r.push(111u8);
    r.push(110u8);
    r.push(49u8);
    r.push(54u8);
    assert(r@ =~= favicon16_seq());
    r
}

/// Bytes of `"favicon32"`: the 32x32 icon selector.
pub open spec fn favicon32_seq() -> Seq<u8> {
    seq![102u8, 97u8, 118u8, 105u8, 99u8, 111u8, 110u8, 51u8, 50u8]
}

/// Builds the bytes of `"favicon32"`.
pub fn favicon32_bytes() -> (r: Vec<u8>)
    ensures
        r@ == favicon32_seq(),
{
    let mut r: Vec<u8> = Vec::new();
    r.push(102u8);
    r.push(97u8);
    r.push(118u8);
    r.push(105u8);
    r.push(99u8);
    r.push(111u8);
    r.push(110u8);
    r.push(51u8);
    r.push(50u8);
    assert(r@ =~= favicon32_seq());
    r
}

/// Bytes of `"GET"`: the GET method.
pub open spec fn get_seq() -> Seq<u8> {
    seq![71u8, 69u8, 84u8]
}

/// Builds the bytes of `"GET"`.
pub fn get_bytes() -> (r: Vec<u8>)
    ensures
        r@ == get_seq(),
{
    let mut r: Vec<u8> = Vec::new();
    r.push(71u8);
    r.push(69u8);
    r.push(84u8);
    assert(r@ =~= get_seq());
    r
}

/// Bytes of `"/favicon"`: the favicon route.
pub open spec fn favicon_path_seq() -> Seq<u8> {
    seq![47u8, 102u8, 97u8, 118u8, 105u8, 99u8, 111u8, 110u8]
}

/// Builds the bytes of `"/favicon"`.
pub fn favicon_path_bytes() -> (r: Vec<u8>)
    ensures
        r@ == favicon_path_seq(),
{
    let mut r: Vec<u8> = Vec::new();
    r.push(47u8);
    r.push(102u8);
    r.push(97u8);
    r.push(118u8);
    r.push(105u8);
    r.push(99u8);
    r.push(111u8);
    r.push(110u8);
    assert(r@ =~= favicon_path_seq());
    r
}

/// Bytes of `"/discord"`: an invite route.
pub open spec fn discord_path_seq() -> Seq<u8> {
    seq![47u8, 100u8, 105u8, 115u8, 99u8, 111u8, 114u8, 100u8]
}

/// Builds the bytes of `"/discord"`.
pub fn discord_path_bytes() -> (r: Vec<u8>)
    ensures
        r@ == discord_path_seq(),
{
    let mut r: Vec<u8> = Vec::new();
    r.push(47u8);
    r.push(100u8);
    r.push(105u8);
    r.push(115u8);
    r.push(99u8);
    r.push(111u8);
    r.push(114u8);
    r.push(100u8);
    assert(r@ =~= discord_path_seq());
    r
}

/// Bytes of `"/dc"`: an invite route.
pub open spec fn dc_path_seq() -> Seq<u8> {
    seq![47u8, 100u8, 99u8]
}

/// Builds the bytes of `"/dc"`.
pub fn dc_path_bytes() -> (r: Vec<u8>)
    ensures
        r@ == dc_path_seq(),
{
    let mut r: Vec<u8> = Vec::new();
    r.push(47u8);
    r.push(100u8);
    r.push(99u8);
    assert(r@ =~= dc_path_seq());
    r
}

/// Bytes of `"/invite"`: an invite route.
pub open spec fn invite_path_seq() -> Seq<u8> {
    seq![47u8, 105u8, 110u8, 118u8, 105u8, 116u8, 101u8]
}

/// Builds the bytes of `"/invite"`.
pub fn invite_path_bytes() -> (r: Vec<u8>)
    ensures
        r@ == invite_path_seq(),
{
    let mut r: Vec<u8> = Vec::new();
    r.push(47u8);
    r.push(105u8);
    r.push(110u8);
    r.push(118u8);
    r.push(105u8);
    r.push(116u8);
    r.push(101u8);
    assert(r@ =~= invite_path_seq());
    r
}

/// Bytes of `"/invites"`: an invite route.
pub open spec fn invites_path_seq() -> Seq<u8> {
    seq![47u8, 105u8, 110u8, 118u8, 105u8, 116u8, 101u8, 115u8]
}

/// Builds the bytes of `"/invites"`.
pub fn invites_path_bytes() -> (r: Vec<u8>)
    ensures
        r@ == invites_path_seq(),
{
    let mut r: Vec<u8> = Vec::new();
    r.push(47u8);
    r.push(105u8);
    r.push(110u8);
    r.push(118u8);
    r.push(105u8);
    r.push(116u8);
    r.push(101u8);
    r.push(115u8);
    assert(r@ =~= invites_path_seq());
    r
}

/// Bytes of `"https://discord.gg/PEsARGFup7"`: the fixed invite redirect target.
pub open spec fn invite_url_seq() -> Seq<u8> {
    seq![104u8, 116u8, 116u8, 112u8, 115u8, 58u8, 47u8, 47u8, 100u8, 105u8, 115u8, 99u8, 111u8, 114u8, 100u8, 46u8, 103u8, 103u8, 47u8, 80u8, 69u8, 115u8, 65u8, 82u8, 71u8, 70u8, 117u8, 112u8, 55u8]
}

/// Builds the bytes of `"https://discord.gg/PEsARGFup7"`.
pub fn invite_url_bytes() -> (r: Vec<u8>)
    ensures
        r@ == invite_url_seq(),
{
    let mut r: Vec<u8> = Vec::new();
    r.push(104u8);
    r.push(116u8);
    r.push(116u8);
    r.push(112u8);
    r.push(115u8);
    r.push(58u8);
    r.push(47u8);
    r.push(47u8);
    r.push(100u8);
    r.push(105u8);
    r.push(115u8);
    r.push(99u8);
    r.push(111u8);
    r.push(114u8);
    r.push(100u8);
    r.push(46u8);
    r.push(103u8);
    r.push(103u8);
    r.push(47u8);
    r.push(80u8);
    r.push(69u8);
    r.push(115u8);
    r.push(65u8);
    r.push(82u8);
    r.push(71u8);
    r.push(70u8);
    r.push(117u8);
    r.push(112u8);
    r.push(55u8);
    assert(r@ =~= invite_url_seq());
    r
}

} // verus!
