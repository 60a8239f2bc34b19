//! Qualified names of modules: a project name followed by the module path, written with dots
//! between segments (`Project.Main`).

use vstd::prelude::*;

verus! {

/// The segments of `s`, split at every `.`; empty segments are kept, so the result is never empty.
pub open spec fn split_segments(s: Seq<char>) -> Seq<Seq<char>>
    decreases s.len(),
{
    if s.len() == 0 {
        seq![Seq::empty()]
    } else {
        let init = split_segments(s.drop_last());
        if s.last() == '.' {
            init.push(Seq::empty())
        } else {
            init.update(init.len() - 1, init.last().push(s.last()))
        }
    }
}

/// Whether a list of segments forms a qualified name: a project name and at least one module
/// segment, none of them empty.
pub open spec fn is_valid_name(segments: Seq<Seq<char>>) -> bool {
    &&& segments.len() >= 2
    &&& forall|i: int| 0 <= i < segments.len() ==> #[trigger] segments[i].len() > 0
}

/// Why a text is not a qualified name.
#[derive(Clone, Copy, Debug, PartialEq, Eq)]
pub enum InvalidQualifiedName {
    /// There is no module segment after the project name.
    NoModuleSegment,
    /// Some segment is empty (two dots in a row, or a dot at either end).
    EmptySegment,
}

/// The error that `from_text` owes for a text split into `segments`, if any.
pub open spec fn name_error(segments: Seq<Seq<char>>) -> Option<InvalidQualifiedName> {
    if segments.len() < 2 {
        Some(InvalidQualifiedName::NoModuleSegment)
    } else if !is_valid_name(segments) {
        Some(InvalidQualifiedName::EmptySegment)
    } else {
        None
    }
}

pub proof fn lemma_split_segments_nonempty(s: Seq<char>)
    ensures
        split_segments(s).len() >= 1,
    decreases s.len(),
{
    if s.len() > 0 {
        lemma_split_segments_nonempty(s.drop_last());
    }
}

/// A module's qualified name, e.g. `Project.Main`: its segments, the first being the project.
#[derive(Debug, PartialEq, Eq)]
pub struct QualifiedName {
    segments: Vec<String>,
}

impl View for QualifiedName {
    type V = Seq<Seq<char>>;

    closed spec fn view(&self) -> Seq<Seq<char>> {
        self.segments.deep_view()
    }
}

impl Clone for QualifiedName {
    fn clone(&self) -> (r: Self)
        ensures
            r@ == self@,
    {
        proof {
            use_type_invariant(self);
        }
        let mut segments: Vec<String> = Vec::new();
        let mut k: usize = 0;
        while k < self.segments.len()
            invariant
                k <= self.segments.len(),
                segments.deep_view() == self.segments.deep_view().subrange(0, k as int),
            decreases self.segments.len() - k,
        {
            let ghost before = segments.deep_view();
            segments.push(self.segments[k].clone());
            assert(segments.deep_view() =~= before.push(self.segments[k as int]@));
            assert(self.segments.deep_view().subrange(0, k + 1) =~= self.segments.deep_view().subrange(0, k as int).push(self.segments[k as int]@));
            k = k + 1;
        }
        assert(self.segments.deep_view().subrange(0, k as int) =~= self.segments.deep_view());
        QualifiedName { segments }
    }
}

impl QualifiedName {
    #[verifier::type_invariant]
    closed spec fn inv(&self) -> bool {
        is_valid_name(self.segments.deep_view())
    }

    /// Parses a dotted name such as `TestProject.TestModule`.
    pub fn from_text(text: &str) -> (r: Result<QualifiedName, InvalidQualifiedName>)
        ensures
            match r {
                Ok(name) => name_error(split_segments(text@)) is None && name@ == split_segments(
                    text@,
                ),
                Err(e) => name_error(split_segments(text@)) == Some(e),
            },
    {
        let n = text.unicode_len();
        let mut segments: Vec<String> = Vec::new();
        let mut start: usize = 0;
        let mut i: usize = 0;
        assert(segments.deep_view() =~= Seq::<Seq<char>>::empty());
        assert(text@.subrange(0, 0) =~= Seq::<char>::empty());
        assert(split_segments(Seq::<char>::empty()) =~= seq![Seq::<char>::empty()]);
        while i < n
            invariant
                n == text@.len(),
                start <= i <= n,
                split_segments(text@.subrange(0, i as int)) == segments.deep_view().push(
                    text@.subrange(start as int, i as int),
                ),
            decreases n - i,
        {
            let c = text.get_char(i);
            let ghost prefix = text@.subrange(0, i as int);
            let ghost next = text@.subrange(0, i + 1);
            assert(next.drop_last() =~= prefix);
            if c == '.' {
                let segment = text.substring_char(start, i).to_owned();
                let ghost before = segments.deep_view();
                segments.push(segment);
                assert(segments.deep_view() =~= before.push(segment@));
                start = i + 1;
                assert(text@.subrange(start as int, i + 1) =~= Seq::<char>::empty());
            } else {
                assert(text@.subrange(start as int, i + 1) =~= text@.subrange(
                    start as int,
                    i as int,
                ).push(c));
            }
            i = i + 1;
        }
        let last = text.substring_char(start, n).to_owned();
        let ghost before = segments.deep_view();
        segments.push(last);
        assert(segments.deep_view() =~= before.push(last@));
        assert(text@.subrange(0, n as int) =~= text@);
        QualifiedName::from_segment_list(segments)
    }

    /// Builds a name from segments already split, checking them.
    fn from_segment_list(segments: Vec<String>) -> (r: Result<QualifiedName, InvalidQualifiedName>)
        ensures
            match r {
                Ok(name) => name_error(segments.deep_view()) is None && name@ == segments.deep_view(),
                Err(e) => name_error(segments.deep_view()) == Some(e),
            },
    {
        let ghost given = segments.deep_view();
        if segments.len() < 2 {
            return Err(InvalidQualifiedName::NoModuleSegment);
        }
        let mut k: usize = 0;
        while k < segments.len()
            invariant
                segments.deep_view() == given,
                2 <= segments.len(),
                k <= segments.len(),
                forall|j: int| 0 <= j < k ==> #[trigger] segments.deep_view()[j].len() > 0,
            decreases segments.len() - k,
        {
            if segments[k].as_str().unicode_len() == 0 {
                assert(segments.deep_view()[k as int] == segments[k as int]@);
                assert(!is_valid_name(segments.deep_view()));
                return Err(InvalidQualifiedName::EmptySegment);
            }
            assert(segments.deep_view()[k as int] == segments[k as int]@);
            k = k + 1;
        }
        Ok(QualifiedName { segments })
    }

    /// Builds the name of a module of project `project_name` whose path within the project is
    /// `module_segments`.
    pub fn from_segments(project_name: &str, module_segments: &[&str]) -> (r: Result<
        QualifiedName,
        InvalidQualifiedName,
    >)
        ensures
            ({
                let all = seq![project_name@] + module_segments@.map_values(|m: &str| m@);
                match r {
                    Ok(name) => name_error(all) is None && name@ == all,
                    Err(e) => name_error(all) == Some(e),
                }
            }),
    {
        let ghost all = seq![project_name@] + module_segments@.map_values(|m: &str| m@);
        let mut segments: Vec<String> = Vec::new();
        segments.push(project_name.to_owned());
        assert(segments.deep_view() =~= all.subrange(0, 1));
        let mut k: usize = 0;
        while k < module_segments.len()
            invariant
                k <= module_segments@.len(),
                all.len() == module_segments@.len() + 1,
                forall|j: int|
                    0 <= j < module_segments@.len() ==> all[j + 1] == #[trigger] module_segments@[j]@,
                segments.deep_view() == all.subrange(0, k + 1),
            decreases module_segments@.len() - k,
        {
            let ghost before = segments.deep_view();
            segments.push(module_segments[k].to_owned());
            assert(segments.deep_view() =~= before.push(module_segments@[k as int]@));
            assert(all.subrange(0, k + 2) =~= all.subrange(0, k + 1).push(module_segments@[k as int]@));
            k = k + 1;
        }
        assert(all.subrange(0, k + 1) =~= all);
        QualifiedName::from_segment_list(segments)
    }

    /// The last segment: the module's own name.
    pub fn name(&self) -> (r: &String)
        ensures
            r@ == self@.last(),
    {
        proof {
            use_type_invariant(self);
        }
        let n = self.segments.len();
        &self.segments[n - 1]
    }
}

} // verus!
