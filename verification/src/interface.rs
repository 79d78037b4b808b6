use vstd::prelude::*;
use vstd::pervasive::arbitrary;
use std::ops::Range;

verus! {

/// The trait representing a game.
///
/// The methods that hand out reach probabilities and counterfactual values
/// work on floating-point data; they extend this trait outside the verified
/// library. Walking the tree (the root node, the node after an action) goes
/// through lock guards that this crate does not define, so it is not part of
/// this interface.
///
/// Implementations are written by the users of the solver and are not checked
/// here: the clauses below are what callers may rely on and what every
/// implementation must keep. The spec functions of the trait model what an
/// implementation stores. Their default bodies leave the value unspecified:
/// generic callers cannot use them, an implementation verified against this
/// trait defines them, and an implementation in plain Rust, which cannot write
/// a spec function, still compiles.
pub trait Game: Sync {
    /// The type representing a node in game tree.
    type Node: GameNode;

    /// Whether the instance is marked as solved.
    closed spec fn spec_is_solved(&self) -> bool {
        arbitrary()
    }

    /// The swap lists, for the first and for the second player, of the
    /// isomorphic chance at `index` of `node`.
    closed spec fn spec_isomorphic_swap(&self, node: &Self::Node, index: int) -> (
        Seq<(usize, usize)>,
        Seq<(usize, usize)>,
    ) {
        arbitrary()
    }

    /// Returns the number of private hands of given player.
    fn num_private_hands(&self, player: usize) -> usize;

    /// Returns the list of isomorphic chances.
    ///
    /// By default a game has no isomorphic chances.
    fn isomorphic_chances(&self, node: &Self::Node) -> (chances: &[usize])
        default_ensures
            chances@.len() == 0,
    {
        &[]
    }

    /// Returns the swap list of the given isomorphic chance, one list for each
    /// of the two players.
    ///
    /// The solver asks for it only with an `index` below the length of
    /// `isomorphic_chances(node)`; a game without isomorphic chances is never
    /// asked. That bound is not a precondition here: the default of
    /// `isomorphic_chances` returns an empty list whatever an implementation
    /// stores, so no clause can tie the two methods together for every
    /// implementation.
    fn isomorphic_swap(&self, node: &Self::Node, index: usize) -> (swap: &[Vec<(usize, usize)>; 2])
        ensures
            swap@[0]@ == self.spec_isomorphic_swap(node, index as int).0,
            swap@[1]@ == self.spec_isomorphic_swap(node, index as int).1,
    ;

    /// Returns whether the instance is ready to be solved.
    ///
    /// By default an instance is always ready.
    fn is_ready(&self) -> (ready: bool)
        default_ensures
            ready,
    {
        true
    }

    /// Returns whether the instance is solved.
    fn is_solved(&self) -> (solved: bool)
        ensures
            solved == self.spec_is_solved(),
    ;

    /// Sets the instance to be solved.
    fn set_solved(&mut self)
        ensures
            final(self).spec_is_solved(),
    ;

    /// Returns whether the compression is enabled.
    ///
    /// By default compression is disabled. When it is, the solver works on the
    /// floating-point storage of the nodes and does not read their compressed
    /// arrays; the compressed accessors of [`GameNode`] stay callable all the
    /// same.
    fn is_compression_enabled(&self) -> (enabled: bool)
        default_ensures
            !enabled,
    {
        false
    }
}

/// The trait representing a node in game tree.
///
/// As for [`Game`], implementations are not checked here; they must keep the
/// clauses below: the actions are numbered from zero up to the number of
/// actions, and the mutable views of the compressed storage are the storage
/// that the read accessors return, each leaving the other array as it was.
/// The scales of the compressed storage are floating-point values and are not
/// part of this interface.
///
/// The four accessors of the compressed storage are required and total: every
/// implementation provides them, and they take no precondition. A game with
/// compression disabled (see [`Game::is_compression_enabled`]) has nodes whose
/// compressed arrays the solver never reads; such a node may return empty
/// arrays. Nothing in a node links it to the game that owns it, so no clause
/// ties these accessors to the game's compression flag.
pub trait GameNode: Sync {
    /// The number of actions at this node.
    closed spec fn spec_num_actions(&self) -> nat {
        arbitrary()
    }

    /// The compressed cumulative regrets stored at this node.
    closed spec fn spec_cum_regret_compressed(&self) -> Seq<i16> {
        arbitrary()
    }

    /// The compressed strategy stored at this node.
    closed spec fn spec_strategy_compressed(&self) -> Seq<u16> {
        arbitrary()
    }

    /// Returns whether the node is terminal.
    fn is_terminal(&self) -> bool;

    /// Returns whether the node is chance.
    fn is_chance(&self) -> bool;

    /// Returns the current player.
    fn player(&self) -> usize;

    /// Returns the number of actions.
    fn num_actions(&self) -> (n: usize)
        ensures
            n == self.spec_num_actions(),
    ;

    /// Returns the range struct of actions: `0..self.num_actions()`.
    fn actions(&self) -> (r: Range<usize>)
        ensures
            r.start == 0,
            r.end == self.spec_num_actions(),
    {
        0..self.num_actions()
    }

    /// Returns the compressed cumulative regrets.
    fn cum_regret_compressed(&self) -> (regrets: &[i16])
        ensures
            regrets@ == self.spec_cum_regret_compressed(),
    ;

    /// Returns the mutable reference to the compressed cumulative regrets.
    fn cum_regret_compressed_mut(&mut self) -> (regrets: &mut [i16])
        ensures
            regrets@ == old(self).spec_cum_regret_compressed(),
            final(self).spec_cum_regret_compressed() == final(regrets)@,
            final(self).spec_strategy_compressed() == old(self).spec_strategy_compressed(),
            final(self).spec_num_actions() == old(self).spec_num_actions(),
    ;

    /// Returns the compressed strategy.
    fn strategy_compressed(&self) -> (strategy: &[u16])
        ensures
            strategy@ == self.spec_strategy_compressed(),
    ;

    /// Returns the mutable reference to the compressed strategy.
    fn strategy_compressed_mut(&mut self) -> (strategy: &mut [u16])
        ensures
            strategy@ == old(self).spec_strategy_compressed(),
            final(self).spec_strategy_compressed() == final(strategy)@,
            final(self).spec_cum_regret_compressed() == old(self).spec_cum_regret_compressed(),
            final(self).spec_num_actions() == old(self).spec_num_actions(),
    ;

    /// Returns whether the strategy is locked.
    ///
    /// By default no strategy is locked.
    fn is_strategy_locked(&self) -> (locked: bool)
        default_ensures
            !locked,
    {
        false
    }

    /// Hint for parallelization. By default, it is set to `false`.
    fn enable_parallelization(&self) -> (parallel: bool)
        default_ensures
            !parallel,
    {
        false
    }
}

} // verus!
