//! Templates: a fragment that is rendered and put into the document once,
//! and whose identifier is kept from then on.

use crate::error::Error;
use crate::text::text_of;
use vstd::prelude::*;
use vstd::string::*;

verus! {

/// How a template type makes its fragment.
pub trait TemplateElementRender {
    /// The host's node that holds the fragment.
    type Fragment;

    /// Makes the fragment, or nothing where there is nothing to show.
    fn render() -> Option<Self::Fragment>;
}

/// Marks a template type that can render its fragment.
pub trait TemplateElement: TemplateElementRender {

}

/// What a template keeps after a call of `define_once`, given what it kept
/// before and what was rendered: the first fragment that is rendered decides,
/// and a call that renders nothing leaves the template as it was.
pub open spec fn kept_after(
    kept: Option<Option<Seq<char>>>,
    rendered: Option<Option<Seq<char>>>,
) -> Option<Option<Seq<char>>> {
    match kept {
        Some(_) => kept,
        None => rendered,
    }
}

/// What a call of `define_once` answers: the identifier that is kept
/// already, else that of the rendered fragment; where nothing is kept and
/// nothing is rendered, the configuration is refused.
pub open spec fn answer_after(
    kept: Option<Option<Seq<char>>>,
    rendered: Option<Option<Seq<char>>>,
) -> Result<Option<Seq<char>>, Error> {
    match kept {
        Some(id) => Ok(id),
        None => match rendered {
            Some(id) => Ok(id),
            None => Err(Error::InvalidConfiguration),
        },
    }
}

/// What `define_once` keeps after a run of calls, given what each call
/// rendered (or would have rendered).
pub open spec fn kept_after_all(
    kept: Option<Option<Seq<char>>>,
    rendered: Seq<Option<Option<Seq<char>>>>,
) -> Option<Option<Seq<char>>>
    decreases rendered.len(),
{
    if rendered.len() == 0 {
        kept
    } else {
        kept_after(kept_after_all(kept, rendered.drop_last()), rendered.last())
    }
}

/// Whether an answer is the one that the model gives.
pub open spec fn matches_answer(
    answer: Result<Option<String>, Error>,
    model: Result<Option<Seq<char>>, Error>,
) -> bool {
    match answer {
        Ok(id) => model == Ok::<Option<Seq<char>>, Error>(text_of(id)),
        Err(error) => model == Err::<Option<Seq<char>>, Error>(error),
    }
}

/// A template that is in the document: its fragment and the identifier of
/// the fragment, kept from the moment the template is defined.
pub struct TemplateSingleton<N> {
    cell: Option<(N, Option<String>)>,
}

impl<N> TemplateSingleton<N> {
    /// What the template keeps of its identifier: nothing before it is
    /// defined, then the identifier of its fragment, which the fragment may
    /// lack.
    pub closed spec fn kept(&self) -> Option<Option<Seq<char>>> {
        match self.cell {
            Some((_, id)) => Some(text_of(id)),
            None => None,
        }
    }

    /// The fragment that the template keeps, once it is defined.
    pub closed spec fn kept_fragment(&self) -> Option<N> {
        match self.cell {
            Some((fragment, _)) => Some(fragment),
            None => None,
        }
    }

    /// A template that is not defined.
    pub fn new() -> (template: TemplateSingleton<N>)
        ensures
            template.kept() is None,
            template.kept_fragment() is None,
    {
        TemplateSingleton { cell: None }
    }

    /// The identifier of the template: `None` before the template is defined,
    /// `Some(None)` where its fragment has no identifier, `Some(Some(id))`
    /// where it has one.
    pub fn get_id(&self) -> (id: Option<&Option<String>>)
        ensures
            match id {
                Some(found) => self.kept() == Some(text_of(*found)),
                None => self.kept() is None,
            },
    {
        match &self.cell {
            Some((_, id)) => Some(id),
            None => None,
        }
    }

    /// The fragment of the template, once the template is defined.
    pub fn fragment(&self) -> (fragment: Option<&N>)
        ensures
            match fragment {
                Some(found) => self.kept_fragment() == Some(*found),
                None => self.kept_fragment() is None,
            },
    {
        match &self.cell {
            Some((fragment, _)) => Some(fragment),
            None => None,
        }
    }

    /// Whether the template is defined.
    pub fn is_defined(&self) -> (defined: bool)
        ensures
            defined == self.kept() is Some,
            defined == self.kept_fragment() is Some,
    {
        self.cell.is_some()
    }

    /// Defines the template with a fragment that has been rendered and put
    /// into the document and with the identifier of that fragment, unless the
    /// template is defined already. `None` stands for a fragment that was not
    /// rendered.
    pub fn define_once_with(&mut self, rendered: Option<(N, Option<String>)>) -> (answer: Result<
        Option<String>,
        Error,
    >)
        ensures
            final(self).kept() == kept_after(old(self).kept(), rendered_of(rendered)),
            final(self).kept_fragment() == match old(self).kept_fragment() {
                Some(fragment) => Some(fragment),
                None => match rendered {
                    Some((fragment, _)) => Some(fragment),
                    None => None,
                },
            },
            matches_answer(answer, answer_after(old(self).kept(), rendered_of(rendered))),
    {
        match &self.cell {
            Some((_, id)) => Ok(copy_id(id)),
            None => match rendered {
                Some((fragment, id)) => {
                    let answer = copy_id(&id);
                    self.cell = Some((fragment, id));
                    Ok(answer)
                },
                None => Err(Error::InvalidConfiguration),
            },
        }
    }

    /// Defines the template once: the first call renders the fragment and
    /// hands it to `mount`, which puts it into the document and answers with
    /// its identifier; every later call answers with the identifier that is
    /// kept and neither renders nor mounts. A call that renders nothing is
    /// refused and leaves the template not defined.
    pub fn define_once<T: TemplateElement<Fragment = N>, M: FnOnce(&N) -> Option<String>>(
        &mut self,
        mount: M,
    ) -> (answer: Result<Option<String>, Error>)
        requires
            forall|fragment: &N| call_requires(mount, (fragment,)),
        ensures
            old(self).kept() is Some ==> final(self).kept() == old(self).kept()
                && final(self).kept_fragment() == old(self).kept_fragment() && matches_answer(
                answer,
                Ok::<Option<Seq<char>>, Error>(old(self).kept()->0),
            ),
            old(self).kept() is None ==> match answer {
                Ok(id) => final(self).kept() == Some(text_of(id)) && final(self).kept_fragment()
                    is Some && call_ensures(T::render, (), final(self).kept_fragment())
                    && call_ensures(mount, (&final(self).kept_fragment()->0,), id),
                Err(error) => error == Error::InvalidConfiguration && final(self).kept() is None
                    && final(self).kept_fragment() is None && call_ensures(
                    T::render,
                    (),
                    None::<N>,
                ),
            },
    {
        if self.is_defined() {
            return self.define_once_with(None);
        }
        match T::render() {
            Some(fragment) => {
                let id = mount(&fragment);
                let _ = self.define_once_with(Some((fragment, copy_id(&id))));
                Ok(id)
            },
            None => self.define_once_with(None),
        }
    }
}

/// The identifier of what was rendered, as mathematical data.
pub open spec fn rendered_of<N>(rendered: Option<(N, Option<String>)>) -> Option<
    Option<Seq<char>>,
> {
    match rendered {
        Some((_, id)) => Some(text_of(id)),
        None => None,
    }
}

fn copy_id(id: &Option<String>) -> (copy: Option<String>)
    ensures
        text_of(copy) == text_of(*id),
        copy == *id,
{
    match id {
        Some(text) => Some(text.clone()),
        None => None,
    }
}

/// A template keeps nothing until a call of `define_once` renders a
/// fragment; from then on every call answers with the identifier of that
/// fragment, whatever the later calls would have rendered.
pub proof fn template_id_is_stable(
    first: Option<Seq<char>>,
    later: Seq<Option<Option<Seq<char>>>>,
    next: Option<Option<Seq<char>>>,
)
    ensures
        kept_after(None, Some(first)) == Some(first),
        kept_after_all(Some(first), later) == Some(first),
        answer_after(kept_after_all(Some(first), later), next) == Ok::<Option<Seq<char>>, Error>(
            first,
        ),
    decreases later.len(),
{
    if later.len() > 0 {
        template_id_is_stable(first, later.drop_last(), next);
    }
}

/// Calls that render nothing leave a template that is not defined as it is.
pub proof fn template_stays_undefined(calls: nat)
    ensures
        kept_after_all(None, Seq::new(calls, |i: int| None::<Option<Seq<char>>>)) is None,
    decreases calls,
{
    let rendered = Seq::new(calls, |i: int| None::<Option<Seq<char>>>);
    if calls > 0 {
        template_stays_undefined((calls - 1) as nat);
        assert(rendered.drop_last() =~= Seq::new(
            (calls - 1) as nat,
            |i: int| None::<Option<Seq<char>>>,
        ));
    }
}

} // verus!
