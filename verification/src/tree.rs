//! The markup tree that every parser of this crate reads and every encoder
//! builds: an element with a tag name, attributes, child elements and
//! optional text content.
//!
//! Absent text is `None`; an element whose text is the empty string is
//! represented the same way, so `text: Some(s)` always carries a non-empty
//! reading of the document.

use vstd::prelude::*;

use crate::errors::{SvdError, SvdErrorKind, SvdErrorKindV, TagError, TagErrorV, XmlContent,
    ParseError, ParseErrorV, ConvType};
use crate::parse::{spec_parse_num, spec_parse_bool, parse_u32_text, parse_u64_text,
    parse_bool_text};

verus! {

/// One element of a markup document.
#[derive(Debug, PartialEq)]
pub struct Element {
    /// The tag name.
    pub name: String,
    /// Attributes in document order; the first pair with a given key wins.
    pub attributes: Vec<(String, String)>,
    /// Child elements in document order.
    pub children: Vec<Element>,
    /// Text content, `None` when the element has none.
    pub text: Option<String>,
}

/// Mathematical image of an [`Element`]: the same tree over sequences.
#[verifier::ext_equal]
pub struct ElementV {
    pub name: Seq<char>,
    pub attributes: Seq<(Seq<char>, Seq<char>)>,
    pub children: Seq<ElementV>,
    pub text: Option<Seq<char>>,
}

/// The view of an optional string.
pub open spec fn opt_text(o: Option<String>) -> Option<Seq<char>> {
    match o {
        Some(s) => Some(s@),
        None => None,
    }
}

/// The image of `e`: the same tree over sequences.
pub open spec fn elem_view(e: Element) -> ElementV
    decreases e,
{
    ElementV {
        name: e.name@,
        attributes: e.attributes@.map_values(|a: (String, String)| (a.0@, a.1@)),
        children: Seq::new(
            e.children@.len(),
            |i: int|
                if 0 <= i < e.children@.len() {
                    elem_view(e.children@[i])
                } else {
                    arbitrary()
                },
        ),
        text: opt_text(e.text),
    }
}

impl View for Element {
    type V = ElementV;

    open spec fn view(&self) -> ElementV {
        elem_view(*self)
    }
}

/// Index of the first child of `s` whose tag name is `name`, or -1.
pub open spec fn first_child_index(s: Seq<ElementV>, name: Seq<char>) -> int
    decreases s.len(),
{
    if s.len() == 0 {
        -1
    } else if s[0].name == name {
        0
    } else {
        let r = first_child_index(s.skip(1), name);
        if r < 0 {
            -1
        } else {
            r + 1
        }
    }
}

/// The first child of `e` named `name`, if any.
pub open spec fn spec_get_child(e: ElementV, name: Seq<char>) -> Option<ElementV> {
    let i = first_child_index(e.children, name);
    if i < 0 {
        None
    } else {
        Some(e.children[i])
    }
}

/// What `first_child_index` finds: a valid index of a child so named, before
/// which no child is so named; -1 exactly when no child is so named.
pub proof fn lemma_first_child_index(s: Seq<ElementV>, name: Seq<char>)
    ensures
        first_child_index(s, name) >= 0 ==> {
            &&& first_child_index(s, name) < s.len()
            &&& s[first_child_index(s, name)].name == name
            &&& forall|j: int| 0 <= j < first_child_index(s, name) ==> s[j].name != name
        },
        first_child_index(s, name) < 0 ==> forall|j: int|
            0 <= j < s.len() ==> s[j].name != name,
    decreases s.len(),
{
    if s.len() > 0 && s[0].name != name {
        lemma_first_child_index(s.skip(1), name);
        assert forall|j: int| 0 <= j < s.len() && s[j].name == name implies j >= 1 && s.skip(
            1,
        )[j - 1].name == name by {
            assert(s.skip(1)[j - 1] == s[j]);
        }
        if first_child_index(s, name) >= 0 {
            let r = first_child_index(s.skip(1), name);
            assert(s[r + 1] == s.skip(1)[r]);
        }
    }
}

/// Index of the first attribute pair of `s` whose key is `name`, or -1.
pub open spec fn first_attr_index(s: Seq<(Seq<char>, Seq<char>)>, name: Seq<char>) -> int
    decreases s.len(),
{
    if s.len() == 0 {
        -1
    } else if s[0].0 == name {
        0
    } else {
        let r = first_attr_index(s.skip(1), name);
        if r < 0 {
            -1
        } else {
            r + 1
        }
    }
}

/// The value of the first attribute of `e` named `name`, if any.
pub open spec fn spec_attr(e: ElementV, name: Seq<char>) -> Option<Seq<char>> {
    let i = first_attr_index(e.attributes, name);
    if i < 0 {
        None
    } else {
        Some(e.attributes[i].1)
    }
}

/// What `first_attr_index` finds, in the manner of
/// [`lemma_first_child_index`].
pub proof fn lemma_first_attr_index(s: Seq<(Seq<char>, Seq<char>)>, name: Seq<char>)
    ensures
        first_attr_index(s, name) >= 0 ==> {
            &&& first_attr_index(s, name) < s.len()
            &&& s[first_attr_index(s, name)].0 == name
            &&& forall|j: int| 0 <= j < first_attr_index(s, name) ==> s[j].0 != name
        },
        first_attr_index(s, name) < 0 ==> forall|j: int| 0 <= j < s.len() ==> s[j].0 != name,
    decreases s.len(),
{
    if s.len() > 0 && s[0].0 != name {
        lemma_first_attr_index(s.skip(1), name);
        assert forall|j: int| 0 <= j < s.len() && s[j].0 == name implies j >= 1 && s.skip(1)[j
            - 1].0 == name by {
            assert(s.skip(1)[j - 1] == s[j]);
        }
        if first_attr_index(s, name) >= 0 {
            let r = first_attr_index(s, name);
            assert(s[r] == s.skip(1)[r - 1]);
        }
    }
}

/// The text of `e`: `EmptyTag` when it has none.
pub open spec fn spec_get_text(e: ElementV) -> Result<Seq<char>, SvdErrorKindV> {
    match e.text {
        Some(t) => Ok(t),
        None => Err(
            SvdErrorKindV::Tag(TagErrorV::EmptyTag { name: e.name, content: XmlContent::Text }),
        ),
    }
}

/// The text of the first child of `e` named `name`: `None` when there is no
/// such child or it has no text.
pub open spec fn spec_child_text_opt(e: ElementV, name: Seq<char>) -> Option<Seq<char>> {
    match spec_get_child(e, name) {
        Some(c) => c.text,
        None => None,
    }
}

/// The text of the first child of `e` named `name`: `MissingTag` when there
/// is no such child or it has no text.
pub open spec fn spec_child_text(e: ElementV, name: Seq<char>) -> Result<Seq<char>, SvdErrorKindV> {
    match spec_child_text_opt(e, name) {
        Some(t) => Ok(t),
        None => Err(SvdErrorKindV::Tag(TagErrorV::MissingTag { name: name })),
    }
}

/// The numeric value of the child named `name`: `MissingTag` when absent,
/// `EmptyTag` when textless, `ParseError` when its text is not a number
/// within `max`.
pub open spec fn spec_child_num(e: ElementV, name: Seq<char>, max: nat, conv: ConvType) -> Result<
    nat,
    SvdErrorKindV,
> {
    match spec_get_child(e, name) {
        None => Err(SvdErrorKindV::Tag(TagErrorV::MissingTag { name: name })),
        Some(c) => match c.text {
            None => Err(
                SvdErrorKindV::Tag(TagErrorV::EmptyTag { name: c.name, content: XmlContent::Text }),
            ),
            Some(t) => match spec_parse_num(t, max) {
                Some(v) => Ok(v),
                None => Err(
                    SvdErrorKindV::Parse(ParseErrorV { tagname: name, conv: conv, text: t }),
                ),
            },
        },
    }
}

/// The boolean value of the child named `name`, conditions as in
/// [`spec_child_num`].
pub open spec fn spec_child_bool(e: ElementV, name: Seq<char>) -> Result<bool, SvdErrorKindV> {
    match spec_get_child(e, name) {
        None => Err(SvdErrorKindV::Tag(TagErrorV::MissingTag { name: name })),
        Some(c) => match c.text {
            None => Err(
                SvdErrorKindV::Tag(TagErrorV::EmptyTag { name: c.name, content: XmlContent::Text }),
            ),
            Some(t) => match spec_parse_bool(t) {
                Some(v) => Ok(v),
                None => Err(
                    SvdErrorKindV::Parse(
                        ParseErrorV { tagname: name, conv: ConvType::Bool, text: t },
                    ),
                ),
            },
        },
    }
}

/// The numeric value of the child named `name` when it is present:
/// `Ok(None)` when absent, the conditions of [`spec_child_num`] otherwise.
pub open spec fn spec_opt_child_num(e: ElementV, name: Seq<char>, max: nat, conv: ConvType)
    -> Result<Option<nat>, SvdErrorKindV> {
    match spec_get_child(e, name) {
        None => Ok(None),
        Some(_) => match spec_child_num(e, name, max, conv) {
            Ok(v) => Ok(Some(v)),
            Err(k) => Err(k),
        },
    }
}

/// `children` extended by the optional element `o`, when present.
pub open spec fn app_opt(children: Seq<ElementV>, o: Option<ElementV>) -> Seq<ElementV> {
    match o {
        Some(x) => children.push(x),
        None => children,
    }
}

/// The image of a childless, attributeless element with text.
pub open spec fn text_elem(name: Seq<char>, text: Seq<char>) -> ElementV {
    ElementV { name: name, attributes: Seq::empty(), children: Seq::empty(), text: Some(text) }
}

/// The image of a childless, attributeless element with optional text.
pub open spec fn opt_text_elem(name: Seq<char>, text: Option<Seq<char>>) -> ElementV {
    ElementV { name: name, attributes: Seq::empty(), children: Seq::empty(), text: text }
}

/// The image of a bare element: no attributes, no children, no text.
pub open spec fn bare_elem(name: Seq<char>) -> ElementV {
    ElementV { name: name, attributes: Seq::empty(), children: Seq::empty(), text: None }
}

impl Element {
    /// A fresh element with the given tag name and text, and no attributes
    /// or children.
    pub fn new(name: &str, text: Option<String>) -> (e: Element)
        ensures
            e@ == opt_text_elem(name@, opt_text(text)),
    {
        let e = Element { name: name.to_owned(), attributes: Vec::new(), children: Vec::new(), text
        };
        proof {
            assert(e@.attributes =~= opt_text_elem(name@, opt_text(e.text)).attributes);
            assert(e@.children =~= opt_text_elem(name@, opt_text(e.text)).children);
            assert(e@ =~~= opt_text_elem(name@, opt_text(e.text)));
        }
        e
    }

    /// A childless, attributeless element holding `text`.
    pub fn text_child(name: &str, text: String) -> (e: Element)
        ensures
            e@ == text_elem(name@, text@),
    {
        Element::new(name, Some(text))
    }

    /// Appends `c` to the children.
    pub fn push_child(&mut self, c: Element)
        ensures
            final(self)@ == (ElementV { children: old(self)@.children.push(c@), ..old(self)@ }),
    {
        let ghost cv = c@;
        let ghost celem = c;
        self.children.push(c);
        proof {
            let oldc = old(self)@.children;
            let newc = self@.children;
            assert(self.children@ == old(self).children@.push(celem));
            assert forall|i: int| 0 <= i < newc.len() implies newc[i] == oldc.push(cv)[i] by {
                if i < oldc.len() {
                    assert(self.children@[i] == old(self).children@[i]);
                } else {
                    assert(self.children@[i] == celem);
                }
            }
            assert(newc =~= oldc.push(cv));
            assert(self@.attributes =~= old(self)@.attributes);
            assert(self@ =~~= (ElementV { children: oldc.push(cv), ..old(self)@ }));
        }
    }

    /// Appends every element of `cs` to the children, in order.
    pub fn append_children(&mut self, cs: Vec<Element>)
        ensures
            final(self)@ == (ElementV {
                children: old(self)@.children + cs@.map_values(|c: Element| c@),
                ..old(self)@
            }),
    {
        let ghost total = cs@.map_values(|c: Element| c@);
        let mut rest = cs;
        proof {
            assert(total.take(0) =~= Seq::<ElementV>::empty());
            assert(old(self)@.children + total.take(0) =~= old(self)@.children);
            assert(rest@.map_values(|c: Element| c@) =~= total.skip(0));
        }
        while rest.len() > 0
            invariant
                rest@.len() <= total.len(),
                rest@.map_values(|c: Element| c@) == total.skip(
                    total.len() - rest@.len(),
                ),
                self@ == (ElementV {
                    children: old(self)@.children + total.take(total.len() - rest@.len()),
                    ..old(self)@
                }),
            decreases rest@.len(),
        {
            let ghost k = total.len() - rest@.len();
            let ghost pre_rest = rest@;
            let c = rest.remove(0);
            proof {
                assert(pre_rest.map_values(|x: Element| x@)[0] == pre_rest[0]@);
                assert(total.skip(k as int)[0] == total[k as int]);
                assert(c@ == total[k as int]);
                assert(rest@ =~= pre_rest.skip(1));
            }
            self.push_child(c);
            proof {
                assert forall|j: int| 0 <= j < rest@.len() implies rest@.map_values(
                    |x: Element| x@,
                )[j] == #[trigger] total.skip(k + 1)[j] by {
                    assert(rest@[j] == pre_rest[j + 1]);
                    assert(pre_rest.map_values(|x: Element| x@)[j + 1] == pre_rest[j + 1]@);
                    assert(total.skip(k as int)[j + 1] == total[k + 1 + j]);
                }
                assert(rest@.map_values(|x: Element| x@) =~= total.skip(k + 1));
                assert(self@.children =~= old(self)@.children + total.take(k as int) + seq![
                    total[k as int],
                ]);
                assert(old(self)@.children + total.take(k as int) + seq![total[k as int]]
                    =~= old(self)@.children + total.take(k + 1));
                assert(self@ =~~= (ElementV {
                    children: old(self)@.children + total.take(k + 1),
                    ..old(self)@
                }));
            }
        }
        proof {
            assert(total.take(total.len() as int) =~= total);
        }
    }

    /// Appends a text child named `name` holding `text`.
    pub fn push_text_child(&mut self, name: &str, text: String)
        ensures
            final(self)@ == (ElementV {
                children: old(self)@.children.push(text_elem(name@, text@)),
                ..old(self)@
            }),
    {
        let c = Element::text_child(name, text);
        self.push_child(c);
    }

    /// Appends a child named `name` holding optional text.
    pub fn push_opt_text_child(&mut self, name: &str, text: Option<String>)
        ensures
            final(self)@ == (ElementV {
                children: old(self)@.children.push(opt_text_elem(name@, opt_text(text))),
                ..old(self)@
            }),
    {
        let c = Element::new(name, text);
        self.push_child(c);
    }

    /// Appends the attribute pair `name = value`.
    pub fn push_attr(&mut self, name: &str, value: String)
        ensures
            final(self)@ == (ElementV {
                attributes: old(self)@.attributes.push((name@, value@)),
                ..old(self)@
            }),
    {
        self.attributes.push((name.to_owned(), value));
        proof {
            assert(self@.attributes =~= old(self)@.attributes.push((
                name@,
                self.attributes@.last().1@,
            )));
            assert(self@.children =~= old(self)@.children);
            assert(self@ =~~= (ElementV {
                attributes: old(self)@.attributes.push((name@, self.attributes@.last().1@)),
                ..old(self)@
            }));
        }
    }

    /// The first child named `name`, if any.
    pub fn get_child(&self, name: &str) -> (r: Option<&Element>)
        ensures
            r matches Some(c) ==> spec_get_child(self@, name@) == Some(c@),
            r is None ==> spec_get_child(self@, name@) is None,
    {
        proof {
            lemma_first_child_index(self@.children, name@);
        }
        let n = self.children.len();
        let mut i: usize = 0;
        while i < n
            invariant
                i <= n,
                n == self.children@.len(),
                self@.children.len() == n,
                forall|j: int| 0 <= j < i ==> #[trigger] self@.children[j].name != name@,
                forall|j: int|
                    0 <= j < n ==> #[trigger] self@.children[j] == elem_view(self.children@[j]),
            decreases n - i,
        {
            if string_eq_str(&self.children[i].name, name) {
                proof {
                    lemma_first_child_index(self@.children, name@);
                    assert(self@.children[i as int].name == name@);
                }
                return Some(&self.children[i]);
            }
            i = i + 1;
        }
        proof {
            lemma_first_child_index(self@.children, name@);
        }
        None
    }

    /// The value of the first attribute named `name`, if any.
    pub fn get_attr(&self, name: &str) -> (r: Option<String>)
        ensures
            opt_text(r) == spec_attr(self@, name@),
    {
        proof {
            lemma_first_attr_index(self@.attributes, name@);
        }
        let n = self.attributes.len();
        let mut i: usize = 0;
        while i < n
            invariant
                i <= n,
                n == self.attributes@.len(),
                self@.attributes.len() == n,
                forall|j: int| 0 <= j < i ==> #[trigger] self@.attributes[j].0 != name@,
                forall|j: int|
                    0 <= j < n ==> #[trigger] self@.attributes[j] == (
                    self.attributes@[j].0@,
                    self.attributes@[j].1@,
                ),
            decreases n - i,
        {
            if string_eq_str(&self.attributes[i].0, name) {
                proof {
                    lemma_first_attr_index(self@.attributes, name@);
                    assert(self@.attributes[i as int].0 == name@);
                }
                return Some(self.attributes[i].1.clone());
            }
            i = i + 1;
        }
        proof {
            lemma_first_attr_index(self@.attributes, name@);
        }
        None
    }

    /// The text of this element, per [`spec_get_text`].
    pub fn get_text(&self) -> (r: Result<String, SvdError>)
        ensures
            match spec_get_text(self@) {
                Ok(t) => r matches Ok(s) && s@ == t,
                Err(k) => r matches Err(e) && e@ == crate::errors::err_of(k),
            },
    {
        match &self.text {
            Some(t) => Ok(t.clone()),
            None => Err(
                SvdError::new(
                    SvdErrorKind::Tag(
                        TagError::EmptyTag { name: self.name.clone(), content: XmlContent::Text },
                    ),
                ),
            ),
        }
    }

    /// The text of the child named `name`, per [`spec_child_text_opt`].
    pub fn get_child_text_opt(&self, name: &str) -> (r: Option<String>)
        ensures
            opt_text(r) == spec_child_text_opt(self@, name@),
    {
        match self.get_child(name) {
            Some(c) => match &c.text {
                Some(t) => Some(t.clone()),
                None => None,
            },
            None => None,
        }
    }

    /// The text of the child named `name`, per [`spec_child_text`].
    pub fn get_child_text(&self, name: &str) -> (r: Result<String, SvdError>)
        ensures
            match spec_child_text(self@, name@) {
                Ok(t) => r matches Ok(s) && s@ == t,
                Err(k) => r matches Err(e) && e@ == crate::errors::err_of(k),
            },
    {
        match self.get_child_text_opt(name) {
            Some(t) => Ok(t),
            None => Err(
                SvdError::new(SvdErrorKind::Tag(TagError::MissingTag { name: name.to_owned() })),
            ),
        }
    }

    /// The `u32` value of the child named `name`, per [`spec_child_num`].
    pub fn get_child_u32(&self, name: &str) -> (r: Result<u32, SvdError>)
        ensures
            match spec_child_num(self@, name@, u32::MAX as nat, ConvType::U32) {
                Ok(v) => r matches Ok(x) && x == v as u32,
                Err(k) => r matches Err(e) && e@ == crate::errors::err_of(k),
            },
    {
        match self.get_child(name) {
            None => Err(
                SvdError::new(SvdErrorKind::Tag(TagError::MissingTag { name: name.to_owned() })),
            ),
            Some(c) => match &c.text {
                None => Err(
                    SvdError::new(
                        SvdErrorKind::Tag(
                            TagError::EmptyTag { name: c.name.clone(), content: XmlContent::Text },
                        ),
                    ),
                ),
                Some(t) => match parse_u32_text(t.as_str()) {
                    Some(v) => Ok(v),
                    None => Err(
                        SvdError::new(
                            SvdErrorKind::Parse(
                                ParseError {
                                    tagname: name.to_owned(),
                                    conv: ConvType::U32,
                                    text: t.clone(),
                                },
                            ),
                        ),
                    ),
                },
            },
        }
    }

    /// The `u64` value of the child named `name`, per [`spec_child_num`].
    pub fn get_child_u64(&self, name: &str) -> (r: Result<u64, SvdError>)
        ensures
            match spec_child_num(self@, name@, u64::MAX as nat, ConvType::U64) {
                Ok(v) => r matches Ok(x) && x == v as u64,
                Err(k) => r matches Err(e) && e@ == crate::errors::err_of(k),
            },
    {
        match self.get_child(name) {
            None => Err(
                SvdError::new(SvdErrorKind::Tag(TagError::MissingTag { name: name.to_owned() })),
            ),
            Some(c) => match &c.text {
                None => Err(
                    SvdError::new(
                        SvdErrorKind::Tag(
                            TagError::EmptyTag { name: c.name.clone(), content: XmlContent::Text },
                        ),
                    ),
                ),
                Some(t) => match parse_u64_text(t.as_str()) {
                    Some(v) => Ok(v),
                    None => Err(
                        SvdError::new(
                            SvdErrorKind::Parse(
                                ParseError {
                                    tagname: name.to_owned(),
                                    conv: ConvType::U64,
                                    text: t.clone(),
                                },
                            ),
                        ),
                    ),
                },
            },
        }
    }

    /// The `u32` value of the child named `name` when present, per
    /// [`spec_opt_child_num`].
    pub fn get_child_u32_opt(&self, name: &str) -> (r: Result<Option<u32>, SvdError>)
        ensures
            match spec_opt_child_num(self@, name@, u32::MAX as nat, ConvType::U32) {
                Ok(Some(v)) => r matches Ok(o) && o == Some(v as u32),
                Ok(None) => r matches Ok(o) && o is None,
                Err(k) => r matches Err(e) && e@ == crate::errors::err_of(k),
            },
    {
        match self.get_child(name) {
            None => Ok(None),
            Some(_) => match self.get_child_u32(name) {
                Ok(v) => Ok(Some(v)),
                Err(e) => Err(e),
            },
        }
    }

    /// The `u64` value of the child named `name` when present, per
    /// [`spec_opt_child_num`].
    pub fn get_child_u64_opt(&self, name: &str) -> (r: Result<Option<u64>, SvdError>)
        ensures
            match spec_opt_child_num(self@, name@, u64::MAX as nat, ConvType::U64) {
                Ok(Some(v)) => r matches Ok(o) && o == Some(v as u64),
                Ok(None) => r matches Ok(o) && o is None,
                Err(k) => r matches Err(e) && e@ == crate::errors::err_of(k),
            },
    {
        match self.get_child(name) {
            None => Ok(None),
            Some(_) => match self.get_child_u64(name) {
                Ok(v) => Ok(Some(v)),
                Err(e) => Err(e),
            },
        }
    }

    /// The boolean value of the child named `name`, per [`spec_child_bool`].
    pub fn get_child_bool(&self, name: &str) -> (r: Result<bool, SvdError>)
        ensures
            match spec_child_bool(self@, name@) {
                Ok(v) => r matches Ok(x) && x == v,
                Err(k) => r matches Err(e) && e@ == crate::errors::err_of(k),
            },
    {
        match self.get_child(name) {
            None => Err(
                SvdError::new(SvdErrorKind::Tag(TagError::MissingTag { name: name.to_owned() })),
            ),
            Some(c) => match &c.text {
                None => Err(
                    SvdError::new(
                        SvdErrorKind::Tag(
                            TagError::EmptyTag { name: c.name.clone(), content: XmlContent::Text },
                        ),
                    ),
                ),
                Some(t) => match parse_bool_text(t.as_str()) {
                    Some(v) => Ok(v),
                    None => Err(
                        SvdError::new(
                            SvdErrorKind::Parse(
                                ParseError {
                                    tagname: name.to_owned(),
                                    conv: ConvType::Bool,
                                    text: t.clone(),
                                },
                            ),
                        ),
                    ),
                },
            },
        }
    }
}

/// True exactly when the string equals the slice, character for character.
pub fn string_eq_str(a: &String, b: &str) -> (r: bool)
    ensures
        r == (a@ == b@),
{
    let bs: String = b.to_owned();
    *a == bs
}

} // verus!
