//! Request templates: a request to a remote service with placeholders of
//! the form `{name}` that are filled in when the request is made.

use crate::utils::text::{contains, lemma_replaced_without_match, replaced, str_contains, str_replace};
use vstd::prelude::*;
use vstd::string::StringExecFns;

verus! {

/// The method of a request.
#[derive(Clone, Copy, Debug, PartialEq, Eq, Structural)]
pub enum RequestMethod {
    /// A `GET` request.
    Get,
    /// A `POST` request.
    Post,
}

/// Why a template could not be rendered.
#[derive(Clone, Copy, Debug, PartialEq, Eq, Structural)]
pub enum RenderError {
    /// An opening brace is left after every parameter was filled in.
    UnresolvedPlaceholder,
}

/// A named text: a parameter of a template, a header or a query argument.
#[derive(Debug)]
pub struct Pair {
    /// The name.
    pub key: String,
    /// The text.
    pub value: String,
}

/// The placeholder that stands for the parameter `key` in a template.
pub open spec fn placeholder(key: Seq<char>) -> Seq<char> {
    seq!['{'] + key + seq!['}']
}

/// `template` with the placeholders of `params` filled in, one parameter
/// after the other in the order of the list.
pub open spec fn filled(template: Seq<char>, params: Seq<Pair>) -> Seq<char>
    decreases params.len(),
{
    if params.len() == 0 {
        template
    } else {
        replaced(
            filled(template, params.drop_last()),
            placeholder(params.last().key@),
            params.last().value@,
        )
    }
}

/// An opening brace occurs in `s`.
pub open spec fn has_brace(s: Seq<char>) -> bool {
    contains(s, seq!['{'])
}

/// What rendering `template` with `params` gives: the filled template,
/// unless an opening brace is left in it.
pub open spec fn rendered(template: Seq<char>, params: Seq<Pair>) -> Result<Seq<char>, RenderError> {
    if has_brace(filled(template, params)) {
        Err(RenderError::UnresolvedPlaceholder)
    } else {
        Ok(filled(template, params))
    }
}

/// The placeholder that stands for the parameter `key` in a template.
pub fn placeholder_of(key: &str) -> (text: String)
    ensures
        text@ == placeholder(key@),
{
    proof {
        reveal_strlit("{");
        reveal_strlit("}");
        assert("{"@ =~= seq!['{']);
        assert("}"@ =~= seq!['}']);
    }
    let mut text = "{".to_owned();
    text.append(key);
    text.append("}");
    text
}

/// Fills the placeholders of `params` into `template`, one parameter after
/// the other in the order of the list.
pub fn fill(template: &str, params: &Vec<Pair>) -> (text: String)
    ensures
        text@ == filled(template@, params@),
{
    let mut text = template.to_owned();
    let mut i: usize = 0;
    while i < params.len()
        invariant
            i <= params.len(),
            text@ == filled(template@, params@.take(i as int)),
        decreases params.len() - i,
    {
        proof {
            assert(params@.take(i as int + 1).drop_last() =~= params@.take(i as int));
        }
        let pattern = placeholder_of(params[i].key.as_str());
        if str_contains(text.as_str(), pattern.as_str()) {
            text = str_replace(text.as_str(), pattern.as_str(), params[i].value.as_str());
        } else {
            proof {
                lemma_replaced_without_match(text@, pattern@, params@[i as int].value@);
            }
        }
        i += 1;
    }
    proof {
        assert(params@.take(i as int) =~= params@);
    }
    text
}

/// A request with placeholders.
#[derive(Debug)]
pub struct ParamRequest {
    /// The address, with placeholders.
    pub url: String,
    /// The method.
    pub method: RequestMethod,
    /// The query arguments; the values may hold placeholders.
    pub query: Vec<Pair>,
    /// The headers; the values may hold placeholders.
    pub header: Vec<Pair>,
    /// The body, with placeholders.
    pub body: Option<String>,
}

/// A request that is ready to be sent: no placeholder is left in it.
#[derive(Debug)]
pub struct RenderedRequest {
    /// The address.
    pub url: String,
    /// The method.
    pub method: RequestMethod,
    /// The headers, in the order of the template.
    pub header: Vec<Pair>,
    /// The query arguments, in the order of the template.
    pub query: Vec<Pair>,
    /// The body.
    pub body: Option<String>,
}

/// Every value of `pairs` can be rendered with `params`.
pub open spec fn rendered_pairs(pairs: Seq<Pair>, params: Seq<Pair>) -> bool {
    forall|i: int| 0 <= i < pairs.len() ==> rendered(#[trigger] pairs[i].value@, params) is Ok
}

/// `list` holds the values of `pairs` rendered with `params`, under the
/// same names and in the same order.
pub open spec fn are_renderings_of(list: Seq<Pair>, pairs: Seq<Pair>, params: Seq<Pair>) -> bool {
    &&& list.len() == pairs.len()
    &&& forall|i: int|
        0 <= i < pairs.len() ==> (#[trigger] list[i]).key@ == pairs[i].key@ && rendered(
            pairs[i].value@,
            params,
        ) == Ok::<Seq<char>, RenderError>(list[i].value@)
}

/// `r` is the template `t` rendered with `params`: the same method, and
/// every part rendered.
pub open spec fn is_rendering_of(r: RenderedRequest, t: ParamRequest, params: Seq<Pair>) -> bool {
    &&& r.method == t.method
    &&& rendered(t.url@, params) == Ok::<Seq<char>, RenderError>(r.url@)
    &&& are_renderings_of(r.header@, t.header@, params)
    &&& are_renderings_of(r.query@, t.query@, params)
    &&& match t.body {
        Some(body) => r.body matches Some(b) && rendered(body@, params) == Ok::<
            Seq<char>,
            RenderError,
        >(b@),
        None => r.body is None,
    }
}

impl ParamRequest {
    /// Every part of the request can be rendered with `params`.
    pub open spec fn renders(&self, params: Seq<Pair>) -> bool {
        &&& rendered(self.url@, params) is Ok
        &&& rendered_pairs(self.header@, params)
        &&& rendered_pairs(self.query@, params)
        &&& self.body matches Some(body) ==> rendered(body@, params) is Ok
    }

    /// Renders a template: fills in the parameters and makes sure that no
    /// opening brace is left.
    pub fn render(template: &str, params: &Vec<Pair>) -> (text: Result<String, RenderError>)
        ensures
            match text {
                Ok(t) => rendered(template@, params@) == Ok::<Seq<char>, RenderError>(t@),
                Err(e) => rendered(template@, params@) == Err::<Seq<char>, RenderError>(e),
            },
    {
        let text = fill(template, params);
        proof {
            reveal_strlit("{");
            assert("{"@ =~= seq!['{']);
        }
        if str_contains(text.as_str(), "{") {
            Err(RenderError::UnresolvedPlaceholder)
        } else {
            Ok(text)
        }
    }

    /// Renders every value of `pairs`, keeping names and order.
    fn render_pairs(pairs: &Vec<Pair>, params: &Vec<Pair>) -> (out: Result<Vec<Pair>, RenderError>)
        ensures
            match out {
                Ok(list) => rendered_pairs(pairs@, params@) && are_renderings_of(
                    list@,
                    pairs@,
                    params@,
                ),
                Err(e) => e == RenderError::UnresolvedPlaceholder && !rendered_pairs(
                    pairs@,
                    params@,
                ),
            },
    {
        let mut list: Vec<Pair> = Vec::new();
        let mut i: usize = 0;
        while i < pairs.len()
            invariant
                i <= pairs.len(),
                list@.len() == i,
                forall|k: int|
                    0 <= k < i ==> (#[trigger] list@[k]).key@ == pairs@[k].key@ && rendered(
                        pairs@[k].value@,
                        params@,
                    ) == Ok::<Seq<char>, RenderError>(list@[k].value@),
            decreases pairs.len() - i,
        {
            match Self::render(pairs[i].value.as_str(), params) {
                Ok(value) => {
                    list.push(Pair { key: pairs[i].key.clone(), value });
                },
                Err(e) => {
                    proof {
                        assert(rendered(pairs@[i as int].value@, params@) is Err);
                    }
                    return Err(e);
                },
            }
            i += 1;
        }
        proof {
            assert forall|k: int| 0 <= k < pairs@.len() implies rendered(
                #[trigger] pairs@[k].value@,
                params@,
            ) is Ok by {
                assert(list@[k].key@ == pairs@[k].key@);
            }
        }
        Ok(list)
    }

    /// Makes the request ready to be sent: renders the address, every
    /// header, every query argument and the body with `params`. It fails
    /// where any of them keeps an opening brace.
    pub fn prepare(&self, params: &Vec<Pair>) -> (request: Result<RenderedRequest, RenderError>)
        ensures
            match request {
                Ok(r) => self.renders(params@) && is_rendering_of(r, *self, params@),
                Err(e) => e == RenderError::UnresolvedPlaceholder && !self.renders(params@),
            },
    {
        let url = match Self::render(self.url.as_str(), params) {
            Ok(url) => url,
            Err(e) => {
                return Err(e);
            },
        };
        let header = match Self::render_pairs(&self.header, params) {
            Ok(header) => header,
            Err(e) => {
                return Err(e);
            },
        };
        let query = match Self::render_pairs(&self.query, params) {
            Ok(query) => query,
            Err(e) => {
                return Err(e);
            },
        };
        let body = match &self.body {
            Some(body) => match Self::render(body.as_str(), params) {
                Ok(body) => Some(body),
                Err(e) => {
                    return Err(e);
                },
            },
            None => None,
        };
        Ok(RenderedRequest { url, method: self.method, header, query, body })
    }
}

} // verus!
