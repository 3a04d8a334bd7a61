//! Mail addresses.

use vstd::prelude::*;
use vstd::string::*;

use crate::errors::{outcome, ApiError, ApiErrorView};
use crate::text::{
    chars_of, is_white_space, text_of, trim, trimmed, trimmed_has_no_space_around,
    without_leading_space, without_trailing_space,
};

verus! {

/// The bare address of `Name <address>`, or the whole text where it does not
/// have that form, without white space around it.
pub open spec fn addr_spec_of(value: Seq<char>) -> Seq<char> {
    let text = trimmed(value);
    if text.len() > 0 && text.last() == '>' && text.contains('<') {
        trimmed(text.subrange(text.index_of_last('<')->0 + 1, text.len() - 1))
    } else {
        text
    }
}

/// What follows the last `@`, unless that is nothing.
pub open spec fn domain_of(address: Seq<char>) -> Option<Seq<char>> {
    match address.index_of_last('@') {
        Some(i) => if i + 1 < address.len() {
            Some(address.skip(i + 1))
        } else {
            None
        },
        None => None,
    }
}

/// Whether an address has a local part and a domain.
pub open spec fn is_address(address: Seq<char>) -> bool {
    address.index_of_last('@') matches Some(i) && 0 < i && i + 1 < address.len()
}

/// The outcome of checking that `value`, given in `field`, is an address.
pub open spec fn email_field(field: Seq<char>, value: Seq<char>) -> Result<(), ApiErrorView> {
    if is_address(value) {
        Ok(())
    } else {
        Err(ApiErrorView::Validation(field + " '"@ + value + "' is not a valid email address"@))
    }
}

/// The index of the last `c`, or the length of `chars` where there is none.
fn find_last(chars: &Vec<char>, c: char) -> (r: usize)
    ensures
        r <= chars@.len(),
        r < chars@.len() ==> chars@.index_of_last(c) == Some(r as int) && chars@.contains(c),
        r == chars@.len() ==> chars@.index_of_last(c) is None && !chars@.contains(c),
{
    proof {
        chars@.index_of_last_ensures(c);
    }
    let mut i: usize = chars.len();
    while i > 0
        invariant
            i <= chars@.len(),
            forall|j: int| i <= j < chars@.len() ==> chars@[j] != c,
            match chars@.index_of_last(c) {
                Some(k) => 0 <= k < chars@.len() && chars@[k] == c && forall|j: int|
                    k < j < chars@.len() ==> chars@[j] != c,
                None => !chars@.contains(c),
            },
        decreases i,
    {
        i -= 1;
        if chars[i] == c {
            assert(chars@.contains(c));
            return i;
        }
    }
    chars.len()
}

/// The bare address of `Name <address>`, or the whole text.
pub fn extract_addr_spec(value: &str) -> (r: String)
    ensures
        r@ == addr_spec_of(value@),
{
    let text = trim(value);
    let chars = chars_of(text.as_str());
    if chars.len() == 0 || chars[chars.len() - 1] != '>' {
        return text;
    }
    let open = find_last(&chars, '<');
    if open == chars.len() {
        return text;
    }
    proof {
        chars@.index_of_last_ensures('<');
        assert(chars@[open as int] == '<');
    }
    let inner = text_of(&chars, open + 1, chars.len() - 1);
    trim(inner.as_str())
}

/// The domain of an address: what follows its last `@`.
pub fn parse_from_domain(address: &str) -> (r: Option<String>)
    ensures
        r.deep_view() == domain_of(address@),
{
    let chars = chars_of(address);
    let at = find_last(&chars, '@');
    if at < chars.len() && at + 1 < chars.len() {
        assert(chars@.skip(at + 1) == chars@.subrange(at + 1, chars@.len() as int));
        Some(text_of(&chars, at + 1, chars.len()))
    } else {
        None
    }
}

/// Checks that `value`, given in `field`, has a local part and a domain.
pub fn validate_email_field(field: &str, value: &str) -> (r: Result<(), ApiError>)
    ensures
        outcome(r) == email_field(field@, value@),
{
    let chars = chars_of(value);
    let at = find_last(&chars, '@');
    if 0 < at && at < chars.len() && at + 1 < chars.len() {
        Ok(())
    } else {
        Err(
            ApiError::Validation(
                field.to_owned().concat(" '").concat(value).concat(
                    "' is not a valid email address",
                ),
            ),
        )
    }
}

/// An address that passes [`validate_email_field`] has a domain.
pub proof fn address_has_a_domain(address: Seq<char>)
    requires
        is_address(address),
    ensures
        domain_of(address) is Some,
{
}

/// Of a text in the form `Name <address>`, whatever the name, what stands between
/// the last pair of brackets is taken, without white space around it.
pub proof fn address_in_brackets_is_taken(value: Seq<char>, name: Seq<char>, inner: Seq<char>)
    requires
        trimmed(value) == name + seq!['<'] + inner + seq!['>'],
        !inner.contains('<'),
    ensures
        addr_spec_of(value) == trimmed(inner),
{
    let text = trimmed(value);
    let open = name.len() as int;
    text.index_of_last_ensures('<');
    assert(text[open] == '<');
    assert(text.contains('<'));
    let at = text.index_of_last('<')->0;
    assert(at == open) by {
        assert(at >= open);
        if at > open {
            assert(at < text.len() - 1);
            assert(text[at] == inner[at - open - 1]);
            assert(inner.contains('<'));
        }
    }
    assert(text.subrange(open + 1, text.len() - 1) =~= inner);
}

/// A text without a bracket at its end, or without one to open, is the address as it
/// stands, without white space around it.
pub proof fn bare_address_is_kept(value: Seq<char>)
    requires
        trimmed(value).len() == 0 || trimmed(value).last() != '>' || !trimmed(value).contains('<'),
    ensures
        addr_spec_of(value) == trimmed(value),
{
}

/// An address that has been taken is not changed by taking it again, and has no
/// white space around it.
pub proof fn taken_address_stays(value: Seq<char>)
    ensures
        addr_spec_of(addr_spec_of(value)) == addr_spec_of(value),
        trimmed(addr_spec_of(value)) == addr_spec_of(value),
        addr_spec_of(Seq::empty()) == Seq::<char>::empty(),
{
    trimmed_has_no_space_around(value);
    let text = trimmed(value);
    if text.len() > 0 && text.last() == '>' && text.contains('<') {
        text.index_of_last_ensures('<');
        let open = text.index_of_last('<')->0;
        let inner = text.subrange(open + 1, text.len() - 1);
        trimmed_has_no_space_around(inner);
        let taken = trimmed(inner);
        if taken.contains('<') {
            lemma_trimmed_is_part(inner, '<');
            let j = choose|j: int| 0 <= j < inner.len() && inner[j] == '<';
            assert(text[open + 1 + j] == '<');
        }
    }
    trimmed_has_no_space_around(Seq::empty());
}

/// What stands in a trimmed text stood in the text.
proof fn lemma_trimmed_is_part(s: Seq<char>, c: char)
    ensures
        trimmed(s).contains(c) ==> exists|j: int| 0 <= j < s.len() && s[j] == c,
{
    lemma_without_leading_is_part(s, c);
    lemma_without_trailing_is_part(without_leading_space(s), c);
}

proof fn lemma_without_leading_is_part(s: Seq<char>, c: char)
    ensures
        without_leading_space(s).contains(c) ==> s.contains(c),
    decreases s.len(),
{
    if s.len() > 0 && is_white_space(s.first()) {
        lemma_without_leading_is_part(s.drop_first(), c);
        if s.drop_first().contains(c) {
            let j = choose|j: int| 0 <= j < s.drop_first().len() && s.drop_first()[j] == c;
            assert(s[j + 1] == c);
        }
    }
}

proof fn lemma_without_trailing_is_part(s: Seq<char>, c: char)
    ensures
        without_trailing_space(s).contains(c) ==> s.contains(c),
    decreases s.len(),
{
    if s.len() > 0 && is_white_space(s.last()) {
        lemma_without_trailing_is_part(s.drop_last(), c);
        if s.drop_last().contains(c) {
            let j = choose|j: int| 0 <= j < s.drop_last().len() && s.drop_last()[j] == c;
            assert(s[j] == c);
        }
    }
}

/// The domain of an address is what follows its last `@`.
pub proof fn domain_follows_the_last_at(local: Seq<char>, domain: Seq<char>)
    requires
        !domain.contains('@'),
    ensures
        domain.len() > 0 ==> domain_of(local + seq!['@'] + domain) == Some(domain),
        domain.len() == 0 ==> domain_of(local + seq!['@'] + domain) is None,
        !local.contains('@') ==> domain_of(local) is None,
        is_address(local + seq!['@'] + domain) <==> local.len() > 0 && domain.len() > 0,
        !local.contains('@') ==> !is_address(local),
{
    let address = local + seq!['@'] + domain;
    let at = local.len() as int;
    assert(address[at] == '@');
    assert(address.contains('@'));
    address.index_of_last_ensures('@');
    local.index_of_last_ensures('@');
    let last = address.index_of_last('@')->0;
    assert(last == at) by {
        if last > at {
            assert(address[last] == domain[last - at - 1]);
            assert(domain.contains('@'));
        }
    }
    assert(address.skip(at + 1) =~= domain);
}

/// An address is a local part, an `@` and a domain without one, neither of them
/// empty; nothing else is, and what is no address is reported with the name of its
/// field and as it was given.
pub proof fn what_an_address_is(field: &str, value: &str, r: Result<(), ApiError>)
    requires
        call_ensures(validate_email_field, (field, value), r),
    ensures
        r is Ok <==> exists|local: Seq<char>, domain: Seq<char>|
            {
                &&& value@ == #[trigger] (local + seq!['@'] + domain)
                &&& local.len() > 0 && domain.len() > 0 && !domain.contains('@')
            },
        r matches Err(e) ==> e@ == ApiErrorView::Validation(
            field@ + " '"@ + value@ + "' is not a valid email address"@,
        ),
{
    let address = value@;
    address.index_of_last_ensures('@');
    if r is Ok {
        let at = address.index_of_last('@')->0;
        let local = address.take(at);
        let domain = address.skip(at + 1);
        assert(address =~= local + seq!['@'] + domain);
        assert(!domain.contains('@')) by {
            if domain.contains('@') {
                let j = choose|j: int| 0 <= j < domain.len() && domain[j] == '@';
                assert(address[at + 1 + j] == '@');
            }
        }
        assert(local.len() > 0 && domain.len() > 0);
    } else {
        assert forall|local: Seq<char>, domain: Seq<char>|
            local.len() > 0 && domain.len() > 0 && !domain.contains('@') implies address
            != #[trigger] (local + seq!['@'] + domain) by {
            domain_follows_the_last_at(local, domain);
        }
    }
}

} // verus!
