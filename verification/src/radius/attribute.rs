pub use crate::radius::attribute_type::RadiusPacketAttributeType;
use crate::tag_length_value::TagLengthValue;
use vstd::prelude::*;

verus! {

pub type RadiusPacketAttribute = TagLengthValue<RadiusPacketAttributeType>;

/// An attribute as a mathematical value: its type and its value bytes.
pub type RadiusPacketAttributeView = (RadiusPacketAttributeType, Seq<u8>);

/// The attributes of the given type, in their order.
pub open spec fn attributes_of_type(
    attributes: Seq<RadiusPacketAttributeView>,
    attribute_type: RadiusPacketAttributeType,
) -> Seq<RadiusPacketAttributeView>
    decreases attributes.len(),
{
    if attributes.len() == 0 {
        Seq::empty()
    } else {
        let rest = attributes_of_type(attributes.drop_last(), attribute_type);
        if attributes.last().0 == attribute_type {
            rest.push(attributes.last())
        } else {
            rest
        }
    }
}

/// The attributes of any other type than the given one, in their order.
pub open spec fn attributes_not_of_type(
    attributes: Seq<RadiusPacketAttributeView>,
    attribute_type: RadiusPacketAttributeType,
) -> Seq<RadiusPacketAttributeView>
    decreases attributes.len(),
{
    if attributes.len() == 0 {
        Seq::empty()
    } else {
        let rest = attributes_not_of_type(attributes.drop_last(), attribute_type);
        if attributes.last().0 == attribute_type {
            rest
        } else {
            rest.push(attributes.last())
        }
    }
}

/// The attributes with every attribute of the given type given the value `value`.
pub open spec fn attributes_with_value(
    attributes: Seq<RadiusPacketAttributeView>,
    attribute_type: RadiusPacketAttributeType,
    value: Seq<u8>,
) -> Seq<RadiusPacketAttributeView> {
    Seq::new(
        attributes.len(),
        |i: int|
            if attributes[i].0 == attribute_type {
                (attribute_type, value)
            } else {
                attributes[i]
            },
    )
}

/// How many attributes have the given type.
pub open spec fn count_of_type(
    attributes: Seq<RadiusPacketAttributeView>,
    attribute_type: RadiusPacketAttributeType,
) -> nat {
    attributes_of_type(attributes, attribute_type).len()
}

/// Position `position` holds the attribute of the given type that has `index` attributes of
/// that type before it.
pub open spec fn is_position_of_nth(
    attributes: Seq<RadiusPacketAttributeView>,
    attribute_type: RadiusPacketAttributeType,
    index: int,
    position: int,
) -> bool {
    &&& 0 <= position < attributes.len()
    &&& attributes[position].0 == attribute_type
    &&& count_of_type(attributes.take(position), attribute_type) == index
}

/// The attributes of a RADIUS packet, in the order in which they stand in the packet.
#[derive(Debug)]
pub struct RadiusPacketAttributes {
    attributes: Vec<RadiusPacketAttribute>,
}

impl View for RadiusPacketAttributes {
    type V = Seq<RadiusPacketAttributeView>;

    closed spec fn view(&self) -> Seq<RadiusPacketAttributeView> {
        self.attributes@.map_values(|attribute: RadiusPacketAttribute| attribute@)
    }
}

/// Appending one attribute extends each of the two filtered sequences as expected.
pub proof fn lemma_filters_push(
    attributes: Seq<RadiusPacketAttributeView>,
    attribute: RadiusPacketAttributeView,
    attribute_type: RadiusPacketAttributeType,
)
    ensures
        attributes_of_type(attributes.push(attribute), attribute_type) == if attribute.0
            == attribute_type {
            attributes_of_type(attributes, attribute_type).push(attribute)
        } else {
            attributes_of_type(attributes, attribute_type)
        },
        attributes_not_of_type(attributes.push(attribute), attribute_type) == if attribute.0
            == attribute_type {
            attributes_not_of_type(attributes, attribute_type)
        } else {
            attributes_not_of_type(attributes, attribute_type).push(attribute)
        },
{
    assert(attributes.push(attribute).drop_last() =~= attributes);
}

/// Taking one more element extends each of the two filtered prefixes as expected.
pub proof fn lemma_filters_take_next(
    attributes: Seq<RadiusPacketAttributeView>,
    attribute_type: RadiusPacketAttributeType,
    i: int,
)
    requires
        0 <= i < attributes.len(),
    ensures
        attributes_of_type(attributes.take(i + 1), attribute_type) == if attributes[i].0
            == attribute_type {
            attributes_of_type(attributes.take(i), attribute_type).push(attributes[i])
        } else {
            attributes_of_type(attributes.take(i), attribute_type)
        },
        attributes_not_of_type(attributes.take(i + 1), attribute_type) == if attributes[i].0
            == attribute_type {
            attributes_not_of_type(attributes.take(i), attribute_type)
        } else {
            attributes_not_of_type(attributes.take(i), attribute_type).push(attributes[i])
        },
{
    assert(attributes.take(i + 1) =~= attributes.take(i).push(attributes[i]));
    lemma_filters_push(attributes.take(i), attributes[i], attribute_type);
}

/// The attributes of a type are exactly those of the sequence that have that type.
pub proof fn lemma_attributes_of_type_membership(
    attributes: Seq<RadiusPacketAttributeView>,
    attribute_type: RadiusPacketAttributeType,
)
    ensures
        forall|i: int|
            0 <= i < attributes_of_type(attributes, attribute_type).len() ==> #[trigger] attributes_of_type(
                attributes,
                attribute_type,
            )[i].0 == attribute_type,
        attributes_of_type(attributes, attribute_type).len() == 0 <==> (forall|i: int|
            0 <= i < attributes.len() ==> #[trigger] attributes[i].0 != attribute_type),
    decreases attributes.len(),
{
    if attributes.len() > 0 {
        let prefix = attributes.drop_last();
        lemma_attributes_of_type_membership(prefix, attribute_type);
        if attributes_of_type(attributes, attribute_type).len() == 0 {
            assert forall|i: int| 0 <= i < attributes.len() implies #[trigger] attributes[i].0
                != attribute_type by {
                if i < attributes.len() - 1 {
                    assert(attributes[i] == prefix[i]);
                }
            }
        } else {
            if attributes.last().0 != attribute_type {
                let j = choose|j: int| 0 <= j < prefix.len() && prefix[j].0 == attribute_type;
                assert(attributes[j] == prefix[j]);
            }
        }
    }
}

/// No attribute of the given type is left among the attributes not of that type.
pub proof fn lemma_attributes_not_of_type_excludes(
    attributes: Seq<RadiusPacketAttributeView>,
    attribute_type: RadiusPacketAttributeType,
)
    ensures
        forall|i: int|
            0 <= i < attributes_not_of_type(attributes, attribute_type).len() ==> #[trigger] attributes_not_of_type(
                attributes,
                attribute_type,
            )[i].0 != attribute_type,
    decreases attributes.len(),
{
    if attributes.len() > 0 {
        lemma_attributes_not_of_type_excludes(attributes.drop_last(), attribute_type);
    }
}

/// The length of a prefix's count never exceeds the whole count, and grows by at most one.
pub proof fn lemma_count_of_type_prefix_bound(
    attributes: Seq<RadiusPacketAttributeView>,
    attribute_type: RadiusPacketAttributeType,
    i: int,
)
    requires
        0 <= i <= attributes.len(),
    ensures
        count_of_type(attributes.take(i), attribute_type) <= count_of_type(
            attributes,
            attribute_type,
        ),
    decreases attributes.len() - i,
{
    if i < attributes.len() {
        lemma_filters_take_next(attributes, attribute_type, i);
        lemma_count_of_type_prefix_bound(attributes, attribute_type, i + 1);
    } else {
        assert(attributes.take(i) =~= attributes);
    }
}

impl Clone for RadiusPacketAttributes {
    fn clone(&self) -> (copy: Self)
        ensures
            copy@ == self@,
    {
        let mut attributes: Vec<RadiusPacketAttribute> = Vec::new();
        let mut i: usize = 0;
        while i < self.attributes.len()
            invariant
                i <= self.attributes@.len(),
                attributes@.map_values(|attribute: RadiusPacketAttribute| attribute@)
                    == self@.take(i as int),
            decreases self.attributes@.len() - i,
        {
            let ghost before = attributes@;
            let copy = self.attributes[i].clone();
            assert(self.attributes@[i as int]@ == self@[i as int]);
            assert(copy@ == self@[i as int]);
            attributes.push(copy);
            assert(attributes@.map_values(|attribute: RadiusPacketAttribute| attribute@)
                =~= before.map_values(|attribute: RadiusPacketAttribute| attribute@).push(
                self@[i as int],
            ));
            assert(self@.take(i + 1) =~= self@.take(i as int).push(self@[i as int]));
            i = i + 1;
        }
        assert(self@.take(i as int) =~= self@);
        Self { attributes }
    }
}

impl RadiusPacketAttributes {
    pub fn new() -> (attributes: Self)
        ensures
            attributes@ == Seq::<RadiusPacketAttributeView>::empty(),
    {
        let attributes = Self { attributes: Vec::new() };
        assert(attributes@ =~= Seq::<RadiusPacketAttributeView>::empty());
        attributes
    }

    pub fn len(&self) -> (length: usize)
        ensures
            length == self@.len(),
    {
        self.attributes.len()
    }

    /// The attribute at the given position.
    pub fn at(&self, position: usize) -> (attribute: &RadiusPacketAttribute)
        requires
            position < self@.len(),
        ensures
            attribute@ == self@[position as int],
    {
        &self.attributes[position]
    }

    pub fn has(&self, attribute_type: RadiusPacketAttributeType) -> (found: bool)
        ensures
            found <==> exists|i: int| 0 <= i < self@.len() && #[trigger] self@[i].0 == attribute_type,
    {
        let mut i: usize = 0;
        while i < self.attributes.len()
            invariant
                i <= self.attributes@.len(),
                self@.len() == self.attributes@.len(),
                forall|j: int| 0 <= j < i ==> #[trigger] self@[j].0 != attribute_type,
            decreases self.attributes@.len() - i,
        {
            if self.attributes[i].tag() == attribute_type {
                assert(self@[i as int].0 == attribute_type);
                return true;
            }
            i = i + 1;
        }
        false
    }

    pub fn count(&self, attribute_type: RadiusPacketAttributeType) -> (count: usize)
        ensures
            count == count_of_type(self@, attribute_type),
    {
        let mut i: usize = 0;
        let mut count: usize = 0;
        while i < self.attributes.len()
            invariant
                i <= self.attributes@.len(),
                self@.len() == self.attributes@.len(),
                count == count_of_type(self@.take(i as int), attribute_type),
                count <= i,
            decreases self.attributes@.len() - i,
        {
            proof {
                lemma_filters_take_next(self@, attribute_type, i as int);
            }
            if self.attributes[i].tag() == attribute_type {
                count = count + 1;
            }
            i = i + 1;
        }
        assert(self@.take(i as int) =~= self@);
        count
    }

    /// References to the attributes of the given type, in their order.
    pub fn get(&self, attribute_type: RadiusPacketAttributeType) -> (found: Vec<
        &RadiusPacketAttribute,
    >)
        ensures
            found@.map_values(|attribute: &RadiusPacketAttribute| attribute@) == attributes_of_type(
                self@,
                attribute_type,
            ),
    {
        let mut found: Vec<&RadiusPacketAttribute> = Vec::new();
        let mut i: usize = 0;
        while i < self.attributes.len()
            invariant
                i <= self.attributes@.len(),
                self@.len() == self.attributes@.len(),
                found@.map_values(|attribute: &RadiusPacketAttribute| attribute@)
                    == attributes_of_type(self@.take(i as int), attribute_type),
            decreases self.attributes@.len() - i,
        {
            proof {
                lemma_filters_take_next(self@, attribute_type, i as int);
            }
            let attribute = &self.attributes[i];
            if attribute.tag() == attribute_type {
                let ghost before = found@;
                found.push(attribute);
                assert(found@.map_values(|attribute: &RadiusPacketAttribute| attribute@)
                    =~= before.map_values(|attribute: &RadiusPacketAttribute| attribute@).push(
                    attribute@,
                ));
            }
            i = i + 1;
        }
        assert(self@.take(i as int) =~= self@);
        found
    }

    /// The attributes in their order, by reference.
    pub fn iter(&self) -> (iter: std::slice::Iter<'_, RadiusPacketAttribute>)
        ensures
            vstd::std_specs::slice::into_iter_elts(iter).map_values(
                |attribute: RadiusPacketAttribute| attribute@,
            ) == self@,
    {
        let iter = self.attributes.as_slice().iter();
        proof {
            broadcast use vstd::std_specs::slice::axiom_spec_slice_iter;
            assert(vstd::std_specs::slice::into_iter_elts(iter) =~= self.attributes@);
        }
        iter
    }

    /// The attributes in their order, by value.
    pub fn into_iter(self) -> (iter: std::vec::IntoIter<RadiusPacketAttribute>)
        ensures
            vstd::std_specs::vec::into_iter_elts(iter).map_values(
                |attribute: RadiusPacketAttribute| attribute@,
            ) == self@,
    {
        let iter = self.attributes.into_iter();
        proof {
            broadcast use vstd::std_specs::vec::axiom_spec_into_iter;
        }
        iter
    }

    pub fn push(&mut self, attribute: RadiusPacketAttribute)
        ensures
            final(self)@ == old(self)@.push(attribute@),
    {
        self.attributes.push(attribute);
        assert(self@ =~= old(self)@.push(attribute@));
    }

    /// Removes the attribute of the given type that has `attribute_index` attributes of that
    /// type before it, and returns it; returns `None`, changing nothing, when there are not
    /// that many.
    pub fn remove(
        &mut self,
        attribute_type: RadiusPacketAttributeType,
        attribute_index: usize,
    ) -> (removed: Option<RadiusPacketAttribute>)
        ensures
            match removed {
                Some(attribute) => exists|position: int|
                    is_position_of_nth(old(self)@, attribute_type, attribute_index as int, position)
                        && attribute@ == old(self)@[position] && final(self)@ == old(self)@.remove(
                        position,
                    ),
                None => count_of_type(old(self)@, attribute_type) <= attribute_index && final(self)@ == old(self)@,
            },
    {
        let ghost initial = self@;
        let mut i: usize = 0;
        let mut seen: usize = 0;
        while i < self.attributes.len()
            invariant
                i <= self.attributes@.len(),
                self@ == initial,
                initial == old(self)@,
                self@.len() == self.attributes@.len(),
                seen == count_of_type(initial.take(i as int), attribute_type),
                seen <= attribute_index,
            decreases self.attributes@.len() - i,
        {
            proof {
                lemma_filters_take_next(initial, attribute_type, i as int);
            }
            assert(self.attributes@[i as int]@ == self@[i as int]);
            if self.attributes[i].tag() == attribute_type {
                if seen == attribute_index {
                    assert(is_position_of_nth(
                        initial,
                        attribute_type,
                        attribute_index as int,
                        i as int,
                    ));
                    let attribute = self.attributes.remove(i);
                    assert(self@ =~= initial.remove(i as int));
                    return Some(attribute);
                }
                seen = seen + 1;
            }
            i = i + 1;
        }
        assert(initial.take(i as int) =~= initial);
        None
    }

    /// Removes every attribute of the given type and returns them in their order; the other
    /// attributes stay in their order.
    pub fn remove_all(&mut self, attribute_type: RadiusPacketAttributeType) -> (removed: Vec<
        RadiusPacketAttribute,
    >)
        ensures
            removed@.map_values(|attribute: RadiusPacketAttribute| attribute@) == attributes_of_type(
                old(self)@,
                attribute_type,
            ),
            final(self)@ == attributes_not_of_type(old(self)@, attribute_type),
    {
        let ghost initial = self@;
        let mut remaining: Vec<RadiusPacketAttribute> = Vec::new();
        std::mem::swap(&mut remaining, &mut self.attributes);
        let mut removed: Vec<RadiusPacketAttribute> = Vec::new();
        let ghost mut taken: int = 0;
        assert(remaining@.map_values(|attribute: RadiusPacketAttribute| attribute@) =~= initial);
        assert(self@ =~= Seq::<RadiusPacketAttributeView>::empty());
        while remaining.len() > 0
            invariant
                0 <= taken <= initial.len(),
                remaining@.map_values(|attribute: RadiusPacketAttribute| attribute@)
                    == initial.skip(taken),
                removed@.map_values(|attribute: RadiusPacketAttribute| attribute@)
                    == attributes_of_type(initial.take(taken), attribute_type),
                self@ == attributes_not_of_type(initial.take(taken), attribute_type),
            decreases remaining@.len(),
        {
            assert(remaining@.map_values(|attribute: RadiusPacketAttribute| attribute@).len()
                == remaining@.len());
            let ghost before_remaining = remaining@;
            let ghost before_removed = removed@;
            let ghost before_kept = self@;
            assert(initial.skip(taken)[0] == initial[taken]);
            assert(before_remaining.map_values(|attribute: RadiusPacketAttribute| attribute@)[0]
                == before_remaining[0]@);
            proof {
                lemma_filters_take_next(initial, attribute_type, taken);
            }
            let attribute = remaining.remove(0);
            assert forall|k: int| 0 <= k < remaining@.len() implies #[trigger] remaining@[k]@
                == initial.skip(taken + 1)[k] by {
                assert(remaining@[k] == before_remaining[k + 1]);
                assert(before_remaining.map_values(|attribute: RadiusPacketAttribute| attribute@)[k
                    + 1] == before_remaining[k + 1]@);
            }
            assert(remaining@.map_values(|attribute: RadiusPacketAttribute| attribute@)
                =~= initial.skip(taken + 1));
            if attribute.tag() == attribute_type {
                removed.push(attribute);
                assert(removed@.map_values(|attribute: RadiusPacketAttribute| attribute@)
                    =~= before_removed.map_values(|attribute: RadiusPacketAttribute| attribute@).push(
                    initial[taken],
                ));
            } else {
                self.attributes.push(attribute);
                assert(self@ =~= before_kept.push(initial[taken]));
            }
            proof {
                taken = taken + 1;
            }
        }
        assert(initial.take(taken) =~= initial);
        removed
    }

    /// Gives every attribute of the given type the value `value`; the other attributes, and
    /// the order, stay as they are.
    pub fn replace_values(&mut self, attribute_type: RadiusPacketAttributeType, value: &[u8])
        ensures
            final(self)@ == attributes_with_value(old(self)@, attribute_type, value@),
    {
        let ghost initial = self@;
        let mut i: usize = 0;
        while i < self.attributes.len()
            invariant
                i <= self.attributes@.len(),
                self@.len() == initial.len(),
                self@.len() == self.attributes@.len(),
                forall|j: int|
                    0 <= j < initial.len() ==> #[trigger] self@[j] == if j < i && initial[j].0
                        == attribute_type {
                        (attribute_type, value@)
                    } else {
                        initial[j]
                    },
            decreases self.attributes@.len() - i,
        {
            assert(self.attributes@[i as int]@ == self@[i as int]);
            if self.attributes[i].tag() == attribute_type {
                let replacement = RadiusPacketAttribute::from_tag_and_value(
                    attribute_type,
                    vstd::slice::slice_to_vec(value),
                );
                let ghost before = self@;
                self.attributes.set(i, replacement);
                assert(self@ =~= before.update(i as int, (attribute_type, value@)));
            }
            i = i + 1;
        }
        assert(self@ =~= attributes_with_value(initial, attribute_type, value@));
    }

    /// Gives the first attribute of the given type the value `value`, if there is one.
    pub fn replace_first_value(
        &mut self,
        attribute_type: RadiusPacketAttributeType,
        value: Vec<u8>,
    ) -> (replaced: bool)
        ensures
            replaced == (count_of_type(old(self)@, attribute_type) > 0),
            replaced ==> exists|position: int|
                is_position_of_nth(old(self)@, attribute_type, 0, position) && final(self)@
                    == old(self)@.update(position, (attribute_type, value@)),
            !replaced ==> final(self)@ == old(self)@,
    {
        let ghost initial = self@;
        let mut i: usize = 0;
        while i < self.attributes.len()
            invariant
                i <= self.attributes@.len(),
                self@ == initial,
                initial == old(self)@,
                self@.len() == self.attributes@.len(),
                count_of_type(initial.take(i as int), attribute_type) == 0,
            decreases self.attributes@.len() - i,
        {
            proof {
                lemma_filters_take_next(initial, attribute_type, i as int);
            }
            assert(self.attributes@[i as int]@ == self@[i as int]);
            if self.attributes[i].tag() == attribute_type {
                assert(is_position_of_nth(initial, attribute_type, 0, i as int));
                proof {
                    lemma_count_of_type_prefix_bound(initial, attribute_type, i as int + 1);
                }
                assert(count_of_type(initial.take(i + 1), attribute_type) == 1);
                assert(count_of_type(initial, attribute_type) > 0);
                self.attributes.set(
                    i,
                    RadiusPacketAttribute::from_tag_and_value(attribute_type, value),
                );
                assert(self@ =~= initial.update(i as int, (attribute_type, value@)));
                return true;
            }
            i = i + 1;
        }
        assert(initial.take(i as int) =~= initial);
        false
    }
}

} // verus!
