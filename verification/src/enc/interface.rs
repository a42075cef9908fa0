use vstd::prelude::*;

verus! {

/// A switch to another block type (of commands, literals or distances).
#[derive(Debug, Copy, Clone, Default)]
pub struct BlockSwitch(pub u8);

/// Commands that can stand as a no-op implement this.
pub trait Nop<T> {
    fn nop() -> T;
}

impl BlockSwitch {
    pub fn new(block_type: u8) -> (r: Self)
        ensures
            r == BlockSwitch(block_type),
    {
        BlockSwitch(block_type)
    }

    pub fn block_type(&self) -> (r: u8)
        ensures
            r == self.0,
    {
        self.0
    }
}

/// A switch of the literal block type, with the stride of the context model.
#[derive(Debug, Copy, Clone, Default)]
pub struct LiteralBlockSwitch(pub BlockSwitch, pub u8);

impl LiteralBlockSwitch {
    pub fn new(block_type: u8, stride: u8) -> (r: Self)
        ensures
            r == LiteralBlockSwitch(BlockSwitch(block_type), stride),
    {
        LiteralBlockSwitch(BlockSwitch::new(block_type), stride)
    }

    pub fn block_type(&self) -> (r: u8)
        ensures
            r == self.0.0,
    {
        self.0.block_type()
    }

    pub fn stride(&self) -> (r: u8)
        ensures
            r == self.1,
    {
        self.1
    }

    pub fn update_stride(&mut self, new_stride: u8)
        ensures
            *final(self) == LiteralBlockSwitch(old(self).0, new_stride),
    {
        self.1 = new_stride;
    }
}

pub const LITERAL_PREDICTION_MODE_SIGN: u8 = 3;

pub const LITERAL_PREDICTION_MODE_UTF8: u8 = 2;

pub const LITERAL_PREDICTION_MODE_MSB6: u8 = 1;

pub const LITERAL_PREDICTION_MODE_LSB6: u8 = 0;

/// A literal prediction mode, held in a nibble: only values below 16 are valid.
#[derive(Default, Copy, Clone, Debug, PartialEq, Eq, Structural, Hash)]
pub struct LiteralPredictionModeNibble(pub u8);

impl LiteralPredictionModeNibble {
    /// What `new` gives for `prediction_mode`.
    pub open spec fn spec_new(prediction_mode: u8) -> Result<Self, ()> {
        if prediction_mode < 16 {
            Ok(LiteralPredictionModeNibble(prediction_mode))
        } else {
            Err(())
        }
    }

    pub fn new(prediction_mode: u8) -> (r: Result<Self, ()>)
        ensures
            r == Self::spec_new(prediction_mode),
    {
        if prediction_mode < 16 {
            return Ok(LiteralPredictionModeNibble(prediction_mode));
        }
        return Err(());
    }

    pub fn prediction_mode(&self) -> (r: u8)
        ensures
            r == self.0,
    {
        self.0
    }

    pub fn signed() -> (r: Self)
        ensures
            r == LiteralPredictionModeNibble(LITERAL_PREDICTION_MODE_SIGN),
    {
        LiteralPredictionModeNibble(LITERAL_PREDICTION_MODE_SIGN)
    }

    pub fn utf8() -> (r: Self)
        ensures
            r == LiteralPredictionModeNibble(LITERAL_PREDICTION_MODE_UTF8),
    {
        LiteralPredictionModeNibble(LITERAL_PREDICTION_MODE_UTF8)
    }

    pub fn msb6() -> (r: Self)
        ensures
            r == LiteralPredictionModeNibble(LITERAL_PREDICTION_MODE_MSB6),
    {
        LiteralPredictionModeNibble(LITERAL_PREDICTION_MODE_MSB6)
    }

    pub fn lsb6() -> (r: Self)
        ensures
            r == LiteralPredictionModeNibble(LITERAL_PREDICTION_MODE_LSB6),
    {
        LiteralPredictionModeNibble(LITERAL_PREDICTION_MODE_LSB6)
    }
}

/// `new` accepts a prediction mode exactly when it fits in a nibble, and the
/// nibble it makes gives that mode back.
pub proof fn lemma_prediction_mode_round_trip(prediction_mode: u8)
    ensures
        LiteralPredictionModeNibble::spec_new(prediction_mode) is Ok <==> prediction_mode < 16,
        LiteralPredictionModeNibble::spec_new(prediction_mode) matches Ok(n) ==> n.0 == prediction_mode,
{
}

/// The literal prediction mode with the literal and distance context maps.
#[derive(Debug, Copy)]
pub struct PredictionModeContextMap<SliceType> {
    pub literal_prediction_mode: LiteralPredictionModeNibble,
    pub literal_context_map: SliceType,
    pub distance_context_map: SliceType,
}

impl<SliceType: Clone> Clone for PredictionModeContextMap<SliceType> {
    /// A copy with the same mode and a clone of each context map.
    fn clone(&self) -> (r: Self)
        ensures
            r.literal_prediction_mode == self.literal_prediction_mode,
            call_ensures(SliceType::clone, (&self.literal_context_map,), r.literal_context_map),
            call_ensures(SliceType::clone, (&self.distance_context_map,), r.distance_context_map),
    {
        PredictionModeContextMap::<SliceType> {
            literal_prediction_mode: self.literal_prediction_mode,
            literal_context_map: self.literal_context_map.clone(),
            distance_context_map: self.distance_context_map.clone(),
        }
    }
}

/// A backward copy of `num_bytes` bytes from `distance` bytes back.
#[derive(Debug, Clone, Copy)]
pub struct CopyCommand {
    pub distance: u32,
    pub num_bytes: u32,
}

impl Nop<CopyCommand> for CopyCommand {
    /// The copy that copies nothing.
    fn nop() -> (r: Self)
        ensures
            r == (CopyCommand { distance: 1, num_bytes: 0 }),
    {
        CopyCommand { distance: 1, num_bytes: 0 }
    }
}

/// A reference to a (transformed) word of the static dictionary.
#[derive(Debug, Clone, Copy)]
pub struct DictCommand {
    pub word_size: u8,
    pub transform: u8,
    pub final_size: u8,
    pub empty: u8,
    pub word_id: u32,
}

impl Nop<DictCommand> for DictCommand {
    /// The dictionary reference that is marked empty.
    fn nop() -> (r: Self)
        ensures
            r == (DictCommand { word_size: 0, transform: 0, final_size: 0, empty: 1, word_id: 0 }),
    {
        DictCommand { word_size: 0, transform: 0, final_size: 0, empty: 1, word_id: 0 }
    }
}

/// Literal probabilities supplied from outside; this build carries none, so
/// the type holds no data.
#[derive(Debug, Copy)]
pub struct FeatureFlagSliceType<SliceType>(pub core::marker::PhantomData<SliceType>);

impl<SliceType> FeatureFlagSliceType<SliceType> {
    /// The probabilities carried: always none.
    pub fn slice(&self) -> (r: &[u8])
        ensures
            r@ == Seq::<u8>::empty(),
    {
        &[]
    }
}

impl<SliceType: Clone> Clone for FeatureFlagSliceType<SliceType> {
    fn clone(&self) -> (r: Self)
        ensures
            r == *self,
    {
        FeatureFlagSliceType::<SliceType>(core::marker::PhantomData)
    }
}

impl<SliceType> Default for FeatureFlagSliceType<SliceType> {
    fn default() -> (r: Self)
        ensures
            r == FeatureFlagSliceType::<SliceType>(core::marker::PhantomData),
    {
        FeatureFlagSliceType::<SliceType>(core::marker::PhantomData::<SliceType>::default())
    }
}

/// A run of literal bytes.
#[derive(Debug, Copy)]
pub struct LiteralCommand<SliceType> {
    pub data: SliceType,
    pub prob: FeatureFlagSliceType<SliceType>,
}

impl<SliceType: Clone> Clone for LiteralCommand<SliceType> {
    /// A copy with a clone of the literal data.
    fn clone(&self) -> (r: Self)
        ensures
            call_ensures(SliceType::clone, (&self.data,), r.data),
            r.prob == self.prob,
    {
        LiteralCommand::<SliceType> { data: self.data.clone(), prob: self.prob.clone() }
    }
}

impl<SliceType: Default> Nop<LiteralCommand<SliceType>> for LiteralCommand<SliceType> {
    /// The literal run made of a default slice.
    fn nop() -> (r: Self)
        ensures
            call_ensures(SliceType::default, (), r.data),
            r.prob == FeatureFlagSliceType::<SliceType>(core::marker::PhantomData),
    {
        LiteralCommand { data: SliceType::default(), prob: FeatureFlagSliceType::<SliceType>::default() }
    }
}

/// One command of the encoder's intermediate representation.
#[derive(Debug, Copy)]
pub enum Command<SliceType> {
    Copy(CopyCommand),
    Dict(DictCommand),
    Literal(LiteralCommand<SliceType>),
    BlockSwitchCommand(BlockSwitch),
    BlockSwitchLiteral(LiteralBlockSwitch),
    BlockSwitchDistance(BlockSwitch),
    PredictionMode(PredictionModeContextMap<SliceType>),
}

impl<SliceType: Clone> Clone for Command<SliceType> {
    /// A command of the same kind: the slices it owns are cloned, everything
    /// else is copied.
    fn clone(&self) -> (r: Self)
        ensures
            match *self {
                Command::Literal(l) => {
                    &&& r matches Command::Literal(m)
                    &&& m.prob == l.prob
                    &&& call_ensures(SliceType::clone, (&l.data,), m.data)
                },
                Command::PredictionMode(p) => {
                    &&& r matches Command::PredictionMode(q)
                    &&& q.literal_prediction_mode == p.literal_prediction_mode
                    &&& call_ensures(SliceType::clone, (&p.literal_context_map,), q.literal_context_map)
                    &&& call_ensures(SliceType::clone, (&p.distance_context_map,), q.distance_context_map)
                },
                _ => r == *self,
            },
    {
        match self {
            Command::Copy(copy) => Command::Copy(*copy),
            Command::Dict(dict) => Command::Dict(*dict),
            Command::Literal(literal) => Command::Literal(literal.clone()),
            Command::BlockSwitchCommand(switch) => Command::BlockSwitchCommand(*switch),
            Command::BlockSwitchLiteral(switch) => Command::BlockSwitchLiteral(*switch),
            Command::BlockSwitchDistance(switch) => Command::BlockSwitchDistance(*switch),
            Command::PredictionMode(pm) => Command::PredictionMode(pm.clone()),
        }
    }
}

/// The command that does nothing: a copy of no bytes from distance 1.
pub open spec fn nop_command<SliceType>() -> Command<SliceType> {
    Command::Copy(CopyCommand { distance: 1, num_bytes: 0 })
}

/// The slices that a command owns, in the order they are handed out: the
/// literal data, or the literal and then the distance context map.
pub open spec fn owned_slices<SliceType>(c: Command<SliceType>) -> Seq<SliceType> {
    match c {
        Command::Literal(lit) => seq![lit.data],
        Command::PredictionMode(pm) => seq![pm.literal_context_map, pm.distance_context_map],
        _ => Seq::empty(),
    }
}

/// `after` is `before` with every slice it owns replaced by a value that the
/// slice type's `default` gives, and all else kept.
pub open spec fn cleared<SliceType: Default>(before: Command<SliceType>, after: Command<SliceType>) -> bool {
    match before {
        Command::Literal(lit) => {
            &&& after matches Command::Literal(new_lit)
            &&& new_lit.prob == lit.prob
            &&& call_ensures(SliceType::default, (), new_lit.data)
        },
        Command::PredictionMode(pm) => {
            &&& after matches Command::PredictionMode(new_pm)
            &&& new_pm.literal_prediction_mode == pm.literal_prediction_mode
            &&& call_ensures(SliceType::default, (), new_pm.literal_context_map)
            &&& call_ensures(SliceType::default, (), new_pm.distance_context_map)
        },
        _ => after == before,
    }
}

impl<SliceType: Default> Command<SliceType> {
    /// Takes the slices that the command owns, in order, and leaves a default
    /// slice in the place of each.
    pub fn take_owned_slices(&mut self) -> (r: Vec<SliceType>)
        ensures
            r@ == owned_slices(*old(self)),
            cleared(*old(self), *final(self)),
    {
        let mut taken: Vec<SliceType> = Vec::new();
        match self {
            Command::Literal(lit) => {
                let mut data = SliceType::default();
                core::mem::swap(&mut lit.data, &mut data);
                taken.push(data);
            },
            Command::PredictionMode(pm) => {
                let mut literal_map = SliceType::default();
                core::mem::swap(&mut pm.literal_context_map, &mut literal_map);
                taken.push(literal_map);
                let mut distance_map = SliceType::default();
                core::mem::swap(&mut pm.distance_context_map, &mut distance_map);
                taken.push(distance_map);
            },
            _ => {},
        }
        assert(taken@ =~= owned_slices(*old(self)));
        taken
    }

    /// Hands each slice that the command owns to `apply_func`, in order, and
    /// leaves a default slice in its place. Commands that own no slice are
    /// left as they are. `apply_func` need accept only the owned slices, so
    /// it is never handed anything else; each owned slice is moved into it,
    /// so it gets each one once.
    pub fn free_array<F>(&mut self, apply_func: &mut F) where F: FnMut(SliceType)
        requires
            forall|i: int|
                0 <= i < owned_slices(*old(self)).len() ==> call_requires(
                    *old(apply_func),
                    (#[trigger] owned_slices(*old(self))[i],),
                ),
        ensures
            cleared(*old(self), *final(self)),
            forall|i: int|
                0 <= i < owned_slices(*old(self)).len() ==> call_ensures(
                    *old(apply_func),
                    (#[trigger] owned_slices(*old(self))[i],),
                    (),
                ),
    {
        let mut slices = self.take_owned_slices();
        let ghost handed = slices@;
        let ghost mut k: int = 0;
        while slices.len() > 0
            invariant
                0 <= k <= handed.len(),
                slices@ == handed.subrange(k, handed.len() as int),
                *apply_func == *old(apply_func),
                forall|j: int| k <= j < handed.len() ==> call_requires(*apply_func, (#[trigger] handed[j],)),
                forall|j: int| 0 <= j < k ==> call_ensures(*old(apply_func), (#[trigger] handed[j],), ()),
            decreases slices.len(),
        {
            let slice = slices.remove(0);
            apply_func(slice);
            proof {
                k = k + 1;
                assert(slices@ =~= handed.subrange(k, handed.len() as int));
            }
        }
    }
}

/// Freeing a command twice: the slices that a freed command owns all come
/// from the slice type's `default`, freeing it again keeps it cleared of what
/// it held first, and where `default` gives a single value the second
/// freeing leaves the command unchanged.
pub proof fn lemma_free_twice<SliceType: Default>(
    c0: Command<SliceType>,
    c1: Command<SliceType>,
    c2: Command<SliceType>,
)
    requires
        cleared(c0, c1),
        cleared(c1, c2),
    ensures
        forall|i: int|
            0 <= i < owned_slices(c1).len() ==> call_ensures(
                SliceType::default,
                (),
                #[trigger] owned_slices(c1)[i],
            ),
        cleared(c0, c2),
        (forall|x: SliceType, y: SliceType|
            call_ensures(SliceType::default, (), x) && call_ensures(SliceType::default, (), y)
                ==> x == y) ==> c2 == c1,
{
    match c0 {
        Command::Literal(_) => {
            assert(owned_slices(c1).len() == 1);
        },
        Command::PredictionMode(_) => {
            assert(owned_slices(c1).len() == 2);
        },
        _ => {},
    }
}

impl<SliceType> Default for Command<SliceType> {
    fn default() -> (r: Self)
        ensures
            r == nop_command::<SliceType>(),
    {
        Command::<SliceType>::nop()
    }
}

impl<SliceType> Nop<Command<SliceType>> for Command<SliceType> {
    fn nop() -> (r: Command<SliceType>)
        ensures
            r == nop_command::<SliceType>(),
    {
        Command::Copy(CopyCommand::nop())
    }
}

} // verus!
