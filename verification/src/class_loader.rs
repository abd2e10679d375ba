//! Bookkeeping of the chain of Java class loaders into which packages of
//! bytecode are loaded at run time.
//!
//! Every package is loaded once, by a new class loader whose parent is the
//! last loader of the chain. Native methods are declared once per class; they
//! are registered on the loader that is last when they are declared and on
//! every loader added later.
//!
//! The loaders (`L`), the loaded classes (`C`) and the tables of native methods
//! (`M`) are Java objects and tables that this module only stores.
use vstd::prelude::*;

verus! {

/// A package of Java bytecode that this library loads at run time.
#[derive(Debug, Clone, Copy, PartialEq, Eq, Structural)]
pub enum Package {
    /// `com.maticrobots.java_rust_obj`: the Java class that owns Rust objects.
    JavaRustObj,
    /// `com.maticrobots.rust_bluedroid`: the Java side of the Bluetooth code.
    RustBluedroid,
    /// `com.maticrobots.nsd_rs`: the Java side of network service discovery.
    NsdRs,
}

/// A Java class whose native methods this library implements.
#[derive(Debug, Clone, Copy, PartialEq, Eq, Structural)]
pub enum NativeClass {
    /// `com/maticrobots/java_rust_obj/RustArcBoxDynAny`
    RustArcBoxDynAny,
    /// `com.maticrobots.rust_bluedroid.LEScanCallback`
    LeScanCallback,
    /// `com.maticrobots.rust_bluedroid.GattCallback`
    GattCallback,
    /// `com/maticrobots/nsd_rs/NSDDiscoveryListener`
    NsdDiscoveryListener,
    /// `com/maticrobots/nsd_rs/NSDServiceResolver`
    NsdServiceResolver,
}

/// One step of initializing a part of the library: load a package of bytecode,
/// or declare the native methods of a class.
#[derive(Debug, Clone, Copy, PartialEq, Eq, Structural)]
pub enum InitStep {
    LoadBytecode(Package),
    DeclareNativeMethods(NativeClass),
}

/// The Java name of a package.
pub open spec fn package_name_spec(p: Package) -> Seq<char> {
    match p {
        Package::JavaRustObj => "com.maticrobots.java_rust_obj"@,
        Package::RustBluedroid => "com.maticrobots.rust_bluedroid"@,
        Package::NsdRs => "com.maticrobots.nsd_rs"@,
    }
}

/// The name under which the native methods of a class are declared.
pub open spec fn class_name_spec(c: NativeClass) -> Seq<char> {
    match c {
        NativeClass::RustArcBoxDynAny => "com/maticrobots/java_rust_obj/RustArcBoxDynAny"@,
        NativeClass::LeScanCallback => "com.maticrobots.rust_bluedroid.LEScanCallback"@,
        NativeClass::GattCallback => "com.maticrobots.rust_bluedroid.GattCallback"@,
        NativeClass::NsdDiscoveryListener => "com/maticrobots/nsd_rs/NSDDiscoveryListener"@,
        NativeClass::NsdServiceResolver => "com/maticrobots/nsd_rs/NSDServiceResolver"@,
    }
}

impl Package {
    /// The Java name of the package.
    pub fn name(&self) -> (r: &'static str)
        ensures
            r@ == package_name_spec(*self),
    {
        match self {
            Package::JavaRustObj => "com.maticrobots.java_rust_obj",
            Package::RustBluedroid => "com.maticrobots.rust_bluedroid",
            Package::NsdRs => "com.maticrobots.nsd_rs",
        }
    }
}

impl NativeClass {
    /// The name under which the native methods of the class are declared.
    pub fn name(&self) -> (r: &'static str)
        ensures
            r@ == class_name_spec(*self),
    {
        match self {
            NativeClass::RustArcBoxDynAny => "com/maticrobots/java_rust_obj/RustArcBoxDynAny",
            NativeClass::LeScanCallback => "com.maticrobots.rust_bluedroid.LEScanCallback",
            NativeClass::GattCallback => "com.maticrobots.rust_bluedroid.GattCallback",
            NativeClass::NsdDiscoveryListener => "com/maticrobots/nsd_rs/NSDDiscoveryListener",
            NativeClass::NsdServiceResolver => "com/maticrobots/nsd_rs/NSDServiceResolver",
        }
    }
}

/// The native methods declared for one Java class.
pub struct ClassNativeMethods<C, M> {
    /// Name of the class.
    pub class_name: String,
    /// The class, as loaded by the last loader when the methods were declared.
    pub class: C,
    /// The table of native methods.
    pub methods: M,
}

/// The chain of class loaders, the packages they loaded and the native
/// methods declared so far.
///
/// The package names and the declarations are kept in vectors, in the order
/// they were added, with no name twice (see [`ClassLoaderChain::wf`]). vstd
/// specifies `HashSet` and `HashMap` only for keys that obey its hash-table
/// key model, which it establishes for integer and `bool` keys but not for
/// strings; with string keys nothing about membership could be proved. The
/// order is also what the chain needs: the last loader is the parent of the
/// next one.
pub struct ClassLoaderChain<L, C, M> {
    loaded_packages: Vec<String>,
    class_loaders: Vec<L>,
    native_methods: Vec<ClassNativeMethods<C, M>>,
}

/// The names in a list of strings.
pub open spec fn names(v: Seq<String>) -> Seq<Seq<char>> {
    v.map_values(|s: String| s@)
}

/// No name occurs twice.
pub open spec fn distinct(s: Seq<Seq<char>>) -> bool {
    forall|i: int, j: int| 0 <= i < s.len() && 0 <= j < s.len() && i != j ==> s[i] != s[j]
}

impl<L, C, M> ClassLoaderChain<L, C, M> {
    /// The packages loaded so far, in loading order; the first is the
    /// application's own (`com.android`).
    pub closed spec fn packages(&self) -> Seq<Seq<char>> {
        names(self.loaded_packages@)
    }

    /// The class loaders, oldest first; the loader at index `i` loaded the
    /// package at index `i`.
    pub closed spec fn loaders(&self) -> Seq<L> {
        self.class_loaders@
    }

    /// The classes whose native methods have been declared, in declaration
    /// order.
    pub closed spec fn native_classes(&self) -> Seq<Seq<char>> {
        self.native_methods@.map_values(|m: ClassNativeMethods<C, M>| m.class_name@)
    }

    /// The declared native methods, in declaration order.
    pub closed spec fn declarations(&self) -> Seq<ClassNativeMethods<C, M>> {
        self.native_methods@
    }

    /// Every package is loaded once, by exactly one loader; every class has
    /// its native methods declared once; there is always a last loader.
    pub open spec fn wf(&self) -> bool {
        &&& distinct(self.packages())
        &&& distinct(self.native_classes())
        &&& self.loaders().len() == self.packages().len()
        &&& self.loaders().len() >= 1
        &&& self.native_classes().len() == self.declarations().len()
    }

    /// A chain that starts with the application's class loader, which has
    /// loaded the package `com.android`.
    pub fn new(app_loader: L) -> (r: Self)
        ensures
            r.wf(),
            r.packages() == seq!["com.android"@],
            r.loaders() == seq![app_loader],
            r.native_classes() == Seq::<Seq<char>>::empty(),
    {
        let mut packages: Vec<String> = Vec::new();
        packages.push("com.android".to_owned());
        let mut loaders: Vec<L> = Vec::new();
        loaders.push(app_loader);
        let r = ClassLoaderChain {
            loaded_packages: packages,
            class_loaders: loaders,
            native_methods: Vec::new(),
        };
        assert(r.packages() =~= seq!["com.android"@]);
        assert(r.native_classes() =~= Seq::<Seq<char>>::empty());
        r
    }

    /// Whether a package has been loaded.
    pub fn is_package_loaded(&self, package: &str) -> (r: bool)
        ensures
            r == self.packages().contains(package@),
    {
        let wanted = package.to_owned();
        let mut i: usize = 0;
        while i < self.loaded_packages.len()
            invariant
                i <= self.loaded_packages@.len(),
                wanted@ == package@,
                forall|j: int| 0 <= j < i ==> self.packages()[j] != package@,
            decreases self.loaded_packages@.len() - i,
        {
            if self.loaded_packages[i] == wanted {
                assert(self.packages()[i as int] == package@);
                return true;
            }
            i = i + 1;
        }
        proof {
            if self.packages().contains(package@) {
                let k = choose|k: int| 0 <= k < self.packages().len() && self.packages()[k] == package@;
                assert(self.packages()[k] == package@);
            }
        }
        false
    }

    /// The last loader of the chain: the parent of the next loader, and the
    /// one that loads the classes of newly declared native methods.
    pub fn last_loader(&self) -> (r: &L)
        requires
            self.wf(),
        ensures
            *r == self.loaders().last(),
    {
        let n = self.class_loaders.len();
        &self.class_loaders[n - 1]
    }

    /// Appends the loader that loaded a package not loaded before.
    pub fn add_loader(&mut self, package: String, loader: L)
        requires
            old(self).wf(),
            !old(self).packages().contains(package@),
        ensures
            final(self).wf(),
            final(self).packages() == old(self).packages().push(package@),
            final(self).loaders() == old(self).loaders().push(loader),
            final(self).native_classes() == old(self).native_classes(),
            final(self).declarations() == old(self).declarations(),
    {
        let ghost package_name = package@;
        self.loaded_packages.push(package);
        self.class_loaders.push(loader);
        assert(self.packages() =~= old(self).packages().push(package_name));
        assert forall|i: int, j: int|
            0 <= i < self.packages().len() && 0 <= j < self.packages().len() && i != j implies
            self.packages()[i] != self.packages()[j] by {
            if i < old(self).packages().len() && j < old(self).packages().len() {
            } else if i == old(self).packages().len() {
                assert(old(self).packages()[j] == self.packages()[j]);
            } else {
                assert(old(self).packages()[i] == self.packages()[i]);
            }
        }
    }

    /// The native methods declared so far; each has to be registered on a
    /// newly added loader.
    pub fn native_methods(&self) -> (r: &Vec<ClassNativeMethods<C, M>>)
        ensures
            r@ == self.declarations(),
    {
        &self.native_methods
    }

    /// Whether native methods have been declared for a class.
    pub fn is_class_declared(&self, class_name: &str) -> (r: bool)
        ensures
            r == self.native_classes().contains(class_name@),
    {
        let wanted = class_name.to_owned();
        let mut i: usize = 0;
        while i < self.native_methods.len()
            invariant
                i <= self.native_methods@.len(),
                wanted@ == class_name@,
                forall|j: int| 0 <= j < i ==> self.native_classes()[j] != class_name@,
            decreases self.native_methods@.len() - i,
        {
            if self.native_methods[i].class_name == wanted {
                assert(self.native_classes()[i as int] == class_name@);
                return true;
            }
            i = i + 1;
        }
        proof {
            if self.native_classes().contains(class_name@) {
                let k = choose|k: int|
                    0 <= k < self.native_classes().len() && self.native_classes()[k]
                        == class_name@;
                assert(self.native_classes()[k] == class_name@);
            }
        }
        false
    }

    /// Records the native methods declared for a class that had none.
    pub fn add_native_methods(&mut self, class_name: String, class: C, methods: M)
        requires
            old(self).wf(),
            !old(self).native_classes().contains(class_name@),
        ensures
            final(self).wf(),
            final(self).native_classes() == old(self).native_classes().push(class_name@),
            final(self).declarations().len() == old(self).declarations().len() + 1,
            forall|i: int|
                0 <= i < old(self).declarations().len() ==> final(self).declarations()[i]
                    == old(self).declarations()[i],
            final(self).declarations().last().class == class,
            final(self).declarations().last().methods == methods,
            final(self).packages() == old(self).packages(),
            final(self).loaders() == old(self).loaders(),
    {
        let ghost class_name_view = class_name@;
        self.native_methods.push(ClassNativeMethods { class_name, class, methods });
        assert(self.native_classes() =~= old(self).native_classes().push(class_name_view));
        assert forall|i: int, j: int|
            0 <= i < self.native_classes().len() && 0 <= j < self.native_classes().len() && i
                != j implies self.native_classes()[i] != self.native_classes()[j] by {
            if i < old(self).native_classes().len() && j < old(self).native_classes().len() {
            } else if i == old(self).native_classes().len() {
                assert(old(self).native_classes()[j] == self.native_classes()[j]);
            } else {
                assert(old(self).native_classes()[i] == self.native_classes()[i]);
            }
        }
    }

    /// Loads a package unless it is loaded already. For a new package,
    /// `make_loader` is given the last loader (the parent of the new one) and
    /// the native methods declared so far (to register on the new loader), and
    /// returns the new loader, which is appended. For a package loaded before,
    /// nothing is called and nothing changes, so loading a package again is a
    /// no-op; the package `com.android` is always loaded. Returns whether a
    /// loader was added.
    pub fn load_package<F>(&mut self, package: &str, make_loader: F) -> (added: bool) where
        F: FnOnce(&L, &Vec<ClassNativeMethods<C, M>>) -> L,

        requires
            old(self).wf(),
            forall|l: &L, d: &Vec<ClassNativeMethods<C, M>>| #[trigger] make_loader.requires((l, d)),
        ensures
            final(self).wf(),
            final(self).packages().contains(package@),
            added == !old(self).packages().contains(package@),
            !added ==> *final(self) == *old(self),
            added ==> final(self).packages() == old(self).packages().push(package@),
            added ==> final(self).loaders().drop_last() == old(self).loaders(),
            added ==> final(self).loaders().len() == old(self).loaders().len() + 1,
            added ==> exists|d: &Vec<ClassNativeMethods<C, M>>|
                d@ == old(self).declarations() && #[trigger] make_loader.ensures(
                    (&old(self).loaders().last(), d),
                    final(self).loaders().last(),
                ),
            final(self).declarations() == old(self).declarations(),
            final(self).native_classes() == old(self).native_classes(),
    {
        if self.is_package_loaded(package) {
            return false;
        }
        let ghost parent = self.loaders().last();
        let new_loader = make_loader(self.last_loader(), &self.native_methods);
        let ghost d = &self.native_methods;
        assert(make_loader.ensures((&parent, d), new_loader));
        self.add_loader(package.to_owned(), new_loader);
        assert(self.loaders().drop_last() =~= old(self).loaders());
        assert(self.loaders().last() == new_loader);
        assert(d@ == old(self).declarations());
        assert(make_loader.ensures((&old(self).loaders().last(), d), self.loaders().last()));
        assert(self.packages().contains(package@)) by {
            assert(self.packages()[self.packages().len() - 1] == package@);
        }
        true
    }

    /// Declares the native methods of a class unless the class has some
    /// already. For a new class, `load_class` is given the last loader and
    /// the table of methods; it loads the class through that loader and
    /// registers the methods, and returns the class, which is recorded with
    /// the table. For a class declared before, nothing is called and nothing
    /// changes: the first declaration of a class stays. Returns whether the
    /// class was declared now.
    pub fn declare_class<G>(&mut self, class_name: &str, methods: M, load_class: G) -> (declared:
        bool) where
        G: FnOnce(&L, &M) -> C,

        requires
            old(self).wf(),
            forall|l: &L, m: &M| #[trigger] load_class.requires((l, m)),
        ensures
            final(self).wf(),
            final(self).native_classes().contains(class_name@),
            declared == !old(self).native_classes().contains(class_name@),
            !declared ==> *final(self) == *old(self),
            declared ==> final(self).native_classes() == old(self).native_classes().push(
                class_name@,
            ),
            declared ==> final(self).declarations().drop_last() == old(self).declarations(),
            declared ==> final(self).declarations().last().methods == methods,
            declared ==> load_class.ensures(
                (&old(self).loaders().last(), &methods),
                final(self).declarations().last().class,
            ),
            final(self).packages() == old(self).packages(),
            final(self).loaders() == old(self).loaders(),
    {
        if self.is_class_declared(class_name) {
            return false;
        }
        let class = load_class(self.last_loader(), &methods);
        self.add_native_methods(class_name.to_owned(), class, methods);
        assert(self.declarations().drop_last() =~= old(self).declarations());
        assert(self.native_classes().contains(class_name@)) by {
            assert(self.native_classes()[self.native_classes().len() - 1] == class_name@);
        }
        true
    }

    /// The step has had its effect on the chain: its package is loaded, or
    /// its class has native methods declared.
    pub open spec fn step_done(&self, step: InitStep) -> bool {
        match step {
            InitStep::LoadBytecode(p) => self.packages().contains(package_name_spec(p)),
            InitStep::DeclareNativeMethods(k) => self.native_classes().contains(class_name_spec(k)),
        }
    }

    /// Every one of the steps has had its effect on the chain.
    pub open spec fn steps_done(&self, steps: Seq<InitStep>) -> bool {
        forall|i: int| 0 <= i < steps.len() ==> #[trigger] self.step_done(steps[i])
    }

    /// One step of initialization took the chain from `self` to `after`. A
    /// step that had its effect already changes nothing. Loading a package
    /// appends its name and the loader that `load` made for it, given the
    /// package, the last loader before (the new loader's parent) and the
    /// declarations made before. Declaring a class appends its name with the
    /// class and the table that `declare` returned, given the class and the
    /// last loader before (the loader of the package loaded most recently).
    pub open spec fn init_step_effect<F, G>(
        &self,
        step: InitStep,
        after: &Self,
        load: &F,
        declare: &G,
    ) -> bool where
        F: Fn(Package, &L, &Vec<ClassNativeMethods<C, M>>) -> L,
        G: Fn(NativeClass, &L) -> (C, M),
     {
        if self.step_done(step) {
            *after == *self
        } else {
            match step {
                InitStep::LoadBytecode(p) => {
                    &&& after.packages() == self.packages().push(package_name_spec(p))
                    &&& after.loaders().drop_last() == self.loaders()
                    &&& after.loaders().len() == self.loaders().len() + 1
                    &&& after.declarations() == self.declarations()
                    &&& after.native_classes() == self.native_classes()
                    &&& exists|d: &Vec<ClassNativeMethods<C, M>>|
                        d@ == self.declarations() && #[trigger] load.ensures(
                            (p, &self.loaders().last(), d),
                            after.loaders().last(),
                        )
                },
                InitStep::DeclareNativeMethods(k) => {
                    &&& after.packages() == self.packages()
                    &&& after.loaders() == self.loaders()
                    &&& after.native_classes() == self.native_classes().push(class_name_spec(k))
                    &&& after.declarations().drop_last() == self.declarations()
                    &&& after.declarations().len() == self.declarations().len() + 1
                    &&& declare.ensures(
                        (k, &self.loaders().last()),
                        (after.declarations().last().class, after.declarations().last().methods),
                    )
                },
            }
        }
    }

    /// The chains in `trace` are those a run of the steps goes through, from
    /// `self` to `after`: each step takes the chain before it to the one
    /// after it, as [`Self::init_step_effect`] says.
    pub open spec fn init_run<F, G>(
        &self,
        steps: Seq<InitStep>,
        trace: Seq<Self>,
        after: &Self,
        load: &F,
        declare: &G,
    ) -> bool where
        F: Fn(Package, &L, &Vec<ClassNativeMethods<C, M>>) -> L,
        G: Fn(NativeClass, &L) -> (C, M),
     {
        &&& trace.len() == steps.len() + 1
        &&& trace[0] == *self
        &&& trace.last() == *after
        &&& forall|i: int|
            0 <= i < steps.len() ==> #[trigger] trace[i].init_step_effect(
                steps[i],
                &trace[i + 1],
                load,
                declare,
            )
    }

    /// Carries out the steps with which a part of the library initializes
    /// itself, in order. A package is loaded as [`Self::load_package`] does,
    /// with `load` making the new loader for the package from the last loader
    /// and the declarations so far; a class is declared as
    /// [`Self::declare_class`] does, with `declare` loading the class through
    /// the last loader, registering its methods and returning the class and
    /// the table. Steps whose package is loaded or whose class is declared
    /// already are skipped. Afterwards every step has had its effect, and
    /// nothing done before is undone; so when every step had its effect
    /// already, as on a second initialization, the chain is unchanged.
    pub fn run_init_steps<F, G>(&mut self, steps: &Vec<InitStep>, load: &F, declare: &G) where
        F: Fn(Package, &L, &Vec<ClassNativeMethods<C, M>>) -> L,
        G: Fn(NativeClass, &L) -> (C, M),

        requires
            old(self).wf(),
            forall|p: Package, l: &L, d: &Vec<ClassNativeMethods<C, M>>| #[trigger]
                load.requires((p, l, d)),
            forall|k: NativeClass, l: &L| #[trigger] declare.requires((k, l)),
        ensures
            final(self).wf(),
            final(self).steps_done(steps@),
            forall|s: InitStep| old(self).step_done(s) ==> #[trigger] final(self).step_done(s),
            old(self).steps_done(steps@) ==> *final(self) == *old(self),
            exists|trace: Seq<Self>|
                #[trigger] old(self).init_run(steps@, trace, &*final(self), load, declare),
    {
        broadcast use vstd::seq_lib::group_seq_properties;

        let ghost mut trace: Seq<Self> = seq![*self];

        let mut i: usize = 0;
        while i < steps.len()
            invariant
                self.wf(),
                i <= steps@.len(),
                forall|j: int| 0 <= j < i ==> #[trigger] self.step_done(steps@[j]),
                forall|s: InitStep| old(self).step_done(s) ==> #[trigger] self.step_done(s),
                old(self).steps_done(steps@) ==> *self == *old(self),
                forall|p: Package, l: &L, d: &Vec<ClassNativeMethods<C, M>>| #[trigger]
                    load.requires((p, l, d)),
                forall|k: NativeClass, l: &L| #[trigger] declare.requires((k, l)),
                trace.len() == i + 1,
                trace[0] == *old(self),
                trace.last() == *self,
                forall|j: int|
                    0 <= j < i ==> #[trigger] trace[j].init_step_effect(
                        steps@[j],
                        &trace[j + 1],
                        load,
                        declare,
                    ),
            decreases steps@.len() - i,
        {
            let ghost before = *self;
            let step = steps[i];
            match step {
                InitStep::LoadBytecode(p) => {
                    let name = p.name();
                    if !self.is_package_loaded(name) {
                        let ghost d = &self.native_methods;
                        let new_loader = load(p, self.last_loader(), &self.native_methods);
                        self.add_loader(name.to_owned(), new_loader);
                        assert(self.packages().last() == name@);
                        assert(self.loaders().last() == new_loader);
                        assert(d@ == before.declarations());
                        assert(load.ensures((p, &before.loaders().last(), d), self.loaders().last()));
                        assert(self.loaders().drop_last() == before.loaders());
                        assert(before.init_step_effect(step, &*self, load, declare));
                    }
                },
                InitStep::DeclareNativeMethods(k) => {
                    let name = k.name();
                    if !self.is_class_declared(name) {
                        let (class, methods) = declare(k, self.last_loader());
                        assert(declare.ensures((k, &before.loaders().last()), (class, methods)));
                        self.add_native_methods(name.to_owned(), class, methods);
                        assert(self.native_classes().last() == name@);
                        assert(self.declarations().drop_last() =~= before.declarations());
                        assert((self.declarations().last().class, self.declarations().last().methods)
                            == (class, methods));
                        assert(before.init_step_effect(step, &*self, load, declare));
                    }
                },
            }
            assert(self.step_done(step));
            assert forall|s: InitStep| before.step_done(s) implies #[trigger] self.step_done(s) by {
                match s {
                    InitStep::LoadBytecode(p) => {
                        let k = choose|k: int|
                            0 <= k < before.packages().len() && before.packages()[k]
                                == package_name_spec(p);
                        assert(self.packages()[k] == package_name_spec(p));
                    },
                    InitStep::DeclareNativeMethods(c) => {
                        let k = choose|k: int|
                            0 <= k < before.native_classes().len() && before.native_classes()[k]
                                == class_name_spec(c);
                        assert(self.native_classes()[k] == class_name_spec(c));
                    },
                }
            }
            proof {
                if old(self).steps_done(steps@) {
                    assert(old(self).step_done(steps@[i as int]));
                    assert(*self == before);
                }
                assert(before.init_step_effect(step, &*self, load, declare));
                let ghost old_trace = trace;
                trace = trace.push(*self);
                assert forall|j: int| 0 <= j < i + 1 implies #[trigger] trace[j].init_step_effect(
                    steps@[j],
                    &trace[j + 1],
                    load,
                    declare,
                ) by {
                    if j < i {
                        assert(trace[j] == old_trace[j]);
                        assert(trace[j + 1] == old_trace[j + 1]);
                    }
                }
            }
            i = i + 1;
        }
        assert(old(self).init_run(steps@, trace, &*self, load, declare));
    }
}

} // verus!
