//! The game: a snake, its food, the random generator that places the food and
//! the latch that ends the game.
use vstd::prelude::*;

use oorandom::Rand32;

use crate::grid::{step, Direction, Position, GRID_HEIGHT, GRID_WIDTH};
use crate::snake::{advanced, steered, Ate, Food, Segment, Snake};

verus! {

#[derive(Debug)]
pub struct State {
    pub snake: Snake,
    pub food: Food,
    /// Set once the snake runs into itself, and never cleared.
    pub game_over: bool,
    pub rng: Rand32,
}

impl State {
    /// The snake and the food lie on the grid.
    pub open spec fn wf(&self) -> bool {
        self.snake.wf() && self.food.pos.wf()
    }

    /// A new game whose food placements are drawn from a generator seeded
    /// with `seed`: the snake's head a quarter of the way across and half way
    /// down, facing right, the food somewhere on the grid.
    pub fn new(seed: u64) -> (r: State)
        ensures
            r.wf(),
            !r.game_over,
            r.snake.head.pos.x == GRID_WIDTH / 4,
            r.snake.head.pos.y == GRID_HEIGHT / 2,
            r.snake.body@ == seq![Segment { pos: step(r.snake.head.pos, Direction::Left) }],
            r.snake.dir == Direction::Right,
            r.snake.prev_dir == Direction::Right,
            r.snake.next_dir is None,
            r.snake.ate is None,
    {
        let mut rng = Rand32::new(seed);
        let snake = Snake::new(Position::new(GRID_WIDTH / 4, GRID_HEIGHT / 2));
        let food = Food::new(Position::random(&mut rng, GRID_WIDTH, GRID_HEIGHT));
        State { snake, food, game_over: false, rng }
    }

    /// One tick of the game. Once the game is over nothing moves. Otherwise
    /// the snake makes its tick; food that was eaten is placed anew on the
    /// grid, and a snake that ran into itself ends the game.
    pub fn update(&mut self)
        requires
            old(self).wf(),
        ensures
            final(self).wf(),
            old(self).game_over ==> {
                &&& final(self).snake == old(self).snake
                &&& final(self).food == old(self).food
                &&& final(self).rng == old(self).rng
                &&& final(self).game_over
            },
            !old(self).game_over ==> {
                &&& advanced(&old(self).snake, &final(self).snake, old(self).food.pos)
                &&& final(self).game_over == (final(self).snake.ate == Some(Ate::Itself))
                &&& final(self).snake.ate != Some(Ate::Food) ==> final(self).food == old(
                    self,
                ).food
                &&& final(self).snake.ate != Some(Ate::Food) ==> final(self).rng == old(self).rng
            },
    {
        if !self.game_over {
            self.snake.update(&self.food);
            match self.snake.ate {
                Some(Ate::Food) => {
                    let pos = Position::random(&mut self.rng, GRID_WIDTH, GRID_HEIGHT);
                    self.food.relocate(pos);
                },
                Some(Ate::Itself) => {
                    self.game_over = true;
                },
                None => {},
            }
        }
    }

    /// A direction request from the player, passed to the snake; it is taken
    /// also once the game is over, where it no longer has any effect.
    pub fn key_down(&mut self, dir: Direction)
        ensures
            steered(&old(self).snake, &final(self).snake, dir),
            final(self).food == old(self).food,
            final(self).game_over == old(self).game_over,
            final(self).rng == old(self).rng,
    {
        self.snake.steer(dir);
    }
}

} // verus!
