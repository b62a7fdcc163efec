//! Classes, instances, and the heap that owns them.
use vstd::prelude::*;
use crate::text::copy_bytes;
use crate::values::func::{Native, NativeView};
use crate::values::values::{Value, ValueView};
use crate::vm::table::{key_index_finds, Table};

verus! {

/// A class as contracts see it: its name, and the function of each method.
pub struct ClassView {
    pub name: Seq<u8>,
    pub methods: Map<Seq<u8>, ValueView>,
}

/// A class: its name and its methods, each a function value under the
/// method's name.
#[derive(Debug)]
pub struct Class {
    pub name: Vec<u8>,
    pub methods: Table,
}

impl View for Class {
    type V = ClassView;

    open spec fn view(&self) -> ClassView {
        ClassView { name: self.name@, methods: self.methods@ }
    }
}

impl DeepView for Class {
    type V = ClassView;

    open spec fn deep_view(&self) -> ClassView {
        self@
    }
}

/// The methods of a class after it inherits from a parent: the parent's
/// methods, except where the class has a method of the same name.
pub open spec fn inherited(
    child: Map<Seq<u8>, ValueView>,
    parent: Map<Seq<u8>, ValueView>,
) -> Map<Seq<u8>, ValueView> {
    parent.union_prefer_right(child)
}

impl Class {
    /// Whether the value is well formed.
    pub open spec fn wf(&self) -> bool {
        self.methods.wf()
    }

    /// A class without methods.
    pub fn new(name: Vec<u8>) -> (r: Self)
        ensures
            r.wf(),
            r@.name == name@,
            r@.methods == Map::<Seq<u8>, ValueView>::empty(),
    {
        Class { name, methods: Table::new() }
    }

    /// The name.
    pub fn name(&self) -> (r: Vec<u8>)
        ensures
            r@ == self@.name,
    {
        copy_bytes(self.name.as_slice())
    }

    /// Makes the function `func` the method `name`, in place of any earlier one.
    pub fn set_method(&mut self, name: Vec<u8>, func: usize)
        requires
            old(self).wf(),
        ensures
            final(self).wf(),
            final(self)@.name == old(self)@.name,
            final(self)@.methods == old(self)@.methods.insert(name@, ValueView::Func(func)),
    {
        self.methods.add(name, Value::Func(func));
    }

    /// The method `name`, if the class has it.
    pub fn get_method(&self, name: &[u8]) -> (r: Option<Value>)
        requires
            self.wf(),
        ensures
            r is Some <==> self@.methods.contains_key(name@),
            r is Some ==> r->Some_0@ == self@.methods[name@],
    {
        self.methods.resolve(name)
    }

    /// Takes over the methods of `parent` that the class does not define itself.
    pub fn inherit(&mut self, parent: &Table)
        requires
            old(self).wf(),
            parent.wf(),
        ensures
            final(self).wf(),
            final(self)@.name == old(self)@.name,
            final(self)@.methods == inherited(old(self)@.methods, parent@),
    {
        let ghost keys = parent.names_view();
        let ghost before = self.methods@;
        let mut i: usize = 0;
        while i < parent.keys()
            invariant
                i <= parent.names.len(),
                parent.wf(),
                self.wf(),
                self.name == old(self).name,
                keys == parent.names_view(),
                before == old(self)@.methods,
                forall|k: Seq<u8>|
                    self.methods@.contains_key(k) <==> before.contains_key(k) || listed(
                        keys,
                        i as int,
                        k,
                    ),
                forall|k: Seq<u8>| #[trigger]
                    self.methods@.contains_key(k) ==> self.methods@[k] == if before.contains_key(
                        k,
                    ) {
                        before[k]
                    } else {
                        parent@[k]
                    },
            decreases parent.names.len() - i,
        {
            let name = parent.name_at(i);
            let ghost now = self.methods@;
            proof {
                key_index_finds(keys, name@);
                assert(keys[i as int] == name@);
                assert(parent@.contains_key(name@));
            }
            if !self.methods.has(name.as_slice()) {
                match parent.resolve(name.as_slice()) {
                    Some(method) => {
                        self.methods.add(copy_bytes(name.as_slice()), method);
                    },
                    None => {},
                }
            }
            i += 1;
            assert forall|k: Seq<u8>|
                self.methods@.contains_key(k) <==> before.contains_key(k) || listed(
                    keys,
                    i as int,
                    k,
                ) by {
                listed_step(keys, i - 1, k);
            }
        }
        assert forall|k: Seq<u8>| parent@.contains_key(k) <==> listed(keys, keys.len() as int, k) by {
            key_index_finds(keys, k);
            if listed(keys, keys.len() as int, k) {
                let j = choose|j: int| 0 <= j < keys.len() && keys[j] == k;
                assert(keys[j] == k);
            }
        }
        assert(self.methods@ =~= inherited(before, parent@));
    }
}

/// Whether `k` stands among the first `n` of `keys`.
pub open spec fn listed(keys: Seq<Seq<u8>>, n: int, k: Seq<u8>) -> bool {
    exists|j: int| 0 <= j < n && keys[j] == k
}

/// Proves that one more key lists what was listed, and that key.
pub proof fn listed_step(keys: Seq<Seq<u8>>, n: int, k: Seq<u8>)
    requires
        0 <= n < keys.len(),
    ensures
        listed(keys, n + 1, k) <==> listed(keys, n, k) || keys[n] == k,
{
    if listed(keys, n + 1, k) {
        let j = choose|j: int| 0 <= j < n + 1 && keys[j] == k;
        if j < n {
            assert(0 <= j < n && keys[j] == k);
        }
    }
    if listed(keys, n, k) {
        let j = choose|j: int| 0 <= j < n && keys[j] == k;
        assert(0 <= j < n + 1 && keys[j] == k);
    }
    if keys[n] == k {
        assert(0 <= n < n + 1 && keys[n] == k);
    }
}

/// An instance as contracts see it: the index of its class, and its fields.
pub struct InstanceView {
    pub class: usize,
    pub fields: Map<Seq<u8>, ValueView>,
}

/// An instance of a class.
#[derive(Debug)]
pub struct Instance {
    pub class: usize,
    pub fields: Table,
}

impl View for Instance {
    type V = InstanceView;

    open spec fn view(&self) -> InstanceView {
        InstanceView { class: self.class, fields: self.fields@ }
    }
}

impl DeepView for Instance {
    type V = InstanceView;

    open spec fn deep_view(&self) -> InstanceView {
        self@
    }
}

impl Instance {
    /// Whether the value is well formed.
    pub open spec fn wf(&self) -> bool {
        self.fields.wf()
    }

    /// An instance of the class at `class`, without fields.
    pub fn new(class: usize) -> (r: Self)
        ensures
            r.wf(),
            r@.class == class,
            r@.fields == Map::<Seq<u8>, ValueView>::empty(),
    {
        Instance { class, fields: Table::new() }
    }

    /// Gives the field `name` the value `value`.
    pub fn set_prop(&mut self, name: Vec<u8>, value: Value)
        requires
            old(self).wf(),
        ensures
            final(self).wf(),
            final(self)@.class == old(self)@.class,
            final(self)@.fields == old(self)@.fields.insert(name@, value@),
    {
        self.fields.add(name, value);
    }
}

/// The heap as contracts see it.
pub struct HeapView {
    pub natives: Seq<NativeView>,
    pub classes: Seq<ClassView>,
    pub instances: Seq<InstanceView>,
}

/// The objects that values refer to by index: host functions, classes and
/// instances. Nothing is ever removed, so an index stays good.
#[derive(Debug)]
pub struct Heap {
    pub natives: Vec<Native>,
    pub classes: Vec<Class>,
    pub instances: Vec<Instance>,
}

impl View for Heap {
    type V = HeapView;

    open spec fn view(&self) -> HeapView {
        HeapView {
            natives: self.natives.deep_view(),
            classes: self.classes.deep_view(),
            instances: self.instances.deep_view(),
        }
    }
}

impl HeapView {
    /// The value of the property `name` of the instance at `instance`: the
    /// field of that name, or else the method of that name of the
    /// instance's class, bound to the instance.
    pub open spec fn property(self, instance: usize, name: Seq<u8>) -> Option<ValueView> {
        if instance >= self.instances.len() {
            None
        } else if self.instances[instance as int].fields.contains_key(name) {
            Some(self.instances[instance as int].fields[name])
        } else {
            let class = self.instances[instance as int].class;
            if class < self.classes.len() && self.classes[class as int].methods.contains_key(name) {
                match self.classes[class as int].methods[name] {
                    ValueView::Func(f) => Some(ValueView::Method(f, instance)),
                    _ => None,
                }
            } else {
                None
            }
        }
    }
}

impl Heap {
    /// Every table of every object is well formed.
    pub open spec fn wf(&self) -> bool {
        &&& forall|i: int| 0 <= i < self.classes.len() ==> #[trigger] self.classes[i].wf()
        &&& forall|i: int| 0 <= i < self.instances.len() ==> #[trigger] self.instances[i].wf()
    }

    /// An empty heap.
    pub fn new() -> (r: Self)
        ensures
            r.wf(),
            r@.natives == Seq::<NativeView>::empty(),
            r@.classes == Seq::<ClassView>::empty(),
            r@.instances == Seq::<InstanceView>::empty(),
    {
        let r = Heap { natives: Vec::new(), classes: Vec::new(), instances: Vec::new() };
        assert(r@.natives =~= Seq::<NativeView>::empty());
        assert(r@.classes =~= Seq::<ClassView>::empty());
        assert(r@.instances =~= Seq::<InstanceView>::empty());
        r
    }

    /// Adds a class and returns its index.
    pub fn add_class(&mut self, class: Class) -> (r: usize)
        requires
            old(self).wf(),
            class.wf(),
        ensures
            final(self).wf(),
            r == old(self)@.classes.len(),
            final(self)@ == (HeapView { classes: old(self)@.classes.push(class@), ..old(self)@ }),
    {
        self.classes.push(class);
        assert(self@.classes =~= old(self)@.classes.push(class@));
        self.classes.len() - 1
    }

    /// Adds an instance and returns its index.
    pub fn add_instance(&mut self, instance: Instance) -> (r: usize)
        requires
            old(self).wf(),
            instance.wf(),
        ensures
            final(self).wf(),
            r == old(self)@.instances.len(),
            final(self)@ == (HeapView {
                instances: old(self)@.instances.push(instance@),
                ..old(self)@
            }),
    {
        self.instances.push(instance);
        assert(self@.instances =~= old(self)@.instances.push(instance@));
        self.instances.len() - 1
    }

    /// Adds a host function and returns its index.
    pub fn add_native(&mut self, native: Native) -> (r: usize)
        requires
            old(self).wf(),
        ensures
            final(self).wf(),
            r == old(self)@.natives.len(),
            final(self)@ == (HeapView { natives: old(self)@.natives.push(native@), ..old(self)@ }),
    {
        self.natives.push(native);
        assert(self@.natives =~= old(self)@.natives.push(native@));
        self.natives.len() - 1
    }

    /// The property `name` of the instance at `instance`.
    pub fn get_prop(&self, instance: usize, name: &[u8]) -> (r: Option<Value>)
        requires
            self.wf(),
        ensures
            r is Some <==> self@.property(instance, name@) is Some,
            r is Some ==> r->Some_0@ == self@.property(instance, name@)->Some_0,
    {
        if instance >= self.instances.len() {
            return None;
        }
        let object = &self.instances[instance];
        assert(object.wf());
        assert(self@.instances[instance as int] == object@);
        match object.fields.resolve(name) {
            Some(value) => Some(value),
            None => {
                if object.class >= self.classes.len() {
                    return None;
                }
                let class = &self.classes[object.class];
                assert(class.wf());
                assert(self@.classes[object.class as int] == class@);
                match class.get_method(name) {
                    Some(Value::Func(f)) => Some(Value::Method(f, instance)),
                    _ => None,
                }
            },
        }
    }
}

} // verus!
